//! The planner: turns a configuration and a dependency graph into the
//! exact sequence of filesystem actions and package-manager command lines
//! that materialize the workspace.
//!
//! The planner only computes. The caller creates the directory, writes
//! the manifest where none exists, and runs the planned commands in
//! order, each with the working directory the plan names.

use vstd::prelude::*;

use crate::graph::Crate;
use crate::graph::CrateModel;
use crate::graph::Dep;
use crate::graph::DepModel;
use crate::graph::crate_flag_seq;
use crate::graph::crate_name_seq;
use crate::graph::dep_name_seq;
use crate::graph::entry_model;
use crate::graph::graph_model;
use crate::graph::lemma_graph_shape;
use crate::graph::locals_well_formed;
use crate::graph::mappings;
use crate::graph::spec_mappings;
use crate::text::full_name;
use crate::text::full_name_seq;
use crate::text::join_comma;
use crate::text::join_features;
use crate::text::strings_view;

verus! {

/// The run configuration: where to put the workspace, and the base name
/// every generated crate's full name starts with.
pub struct Conf {
    pub location: String,
    pub project_base: String,
}

/// The mathematical model of one external command: a program, an
/// optional working directory, and its ordered arguments.
pub struct CmdModel {
    pub program: Seq<char>,
    pub cwd: Option<Seq<char>>,
    pub args: Seq<Seq<char>>,
}

/// One external command to run: a program, an optional working directory,
/// and its ordered arguments.
#[derive(Debug, PartialEq)]
pub struct Cmd {
    pub program: String,
    pub cwd: Option<String>,
    pub args: Vec<String>,
}

impl View for Cmd {
    type V = CmdModel;

    open spec fn view(&self) -> CmdModel {
        CmdModel {
            program: self.program@,
            cwd: match self.cwd {
                Some(d) => Some(d@),
                None => None,
            },
            args: strings_view(self.args@),
        }
    }
}

/// The models of a list of commands.
pub open spec fn cmds_model(cs: Seq<Cmd>) -> Seq<CmdModel> {
    cs.map_values(|c: Cmd| c@)
}

/// The destination directory of a run: `{location}/{base}`.
pub open spec fn dest_dir_seq(location: Seq<char>, base: Seq<char>) -> Seq<char> {
    location + "/"@ + base
}

/// Where the root manifest lives: `{location}/Cargo.toml`.
pub open spec fn manifest_path_seq(location: Seq<char>) -> Seq<char> {
    location + "/Cargo.toml"@
}

/// The directory of one generated crate: `{dest}/{base}-{name}`.
pub open spec fn crate_dir_seq(dest: Seq<char>, base: Seq<char>, c: CrateModel) -> Seq<char> {
    dest + "/"@ + full_name_seq(base, crate_name_seq(c))
}

/// The command that creates the destination directory tree.
pub open spec fn mkdir_cmd_model(dest: Seq<char>) -> CmdModel {
    CmdModel { program: "mkdir"@, cwd: None, args: seq!["-p"@, dest] }
}

/// The command that creates one crate, run from the destination directory.
pub open spec fn new_cmd_model(dest: Seq<char>, base: Seq<char>, c: CrateModel) -> CmdModel {
    CmdModel {
        program: "cargo"@,
        cwd: Some(dest),
        args: seq!["new"@, crate_flag_seq(c), full_name_seq(base, crate_name_seq(c))],
    }
}

/// The arguments that add one dependency: remote packages by name, with
/// a comma-joined feature list where one is given; local siblings by
/// path flag, relative path, and the sibling's full name (the path with
/// its `../` prefix stripped).
pub open spec fn add_args_model(d: DepModel) -> Seq<Seq<char>> {
    match d {
        DepModel::Remote { name, features: None } => seq!["add"@, name],
        DepModel::Remote { name, features: Some(fs) } => seq![
            "add"@,
            name,
            "--features"@,
            join_comma(fs),
        ],
        DepModel::Local { path } => seq!["add"@, "--path"@, path, path.skip(3)],
    }
}

/// The command that adds one dependency, run from the owning crate's
/// directory.
pub open spec fn add_cmd_model(crate_dir: Seq<char>, d: DepModel) -> CmdModel {
    CmdModel { program: "cargo"@, cwd: Some(crate_dir), args: add_args_model(d) }
}

/// The dependency-addition commands of one graph entry, in list order.
pub open spec fn crate_add_cmds_model(
    dest: Seq<char>,
    base: Seq<char>,
    e: (CrateModel, Seq<DepModel>),
) -> Seq<CmdModel> {
    e.1.map_values(|d: DepModel| add_cmd_model(crate_dir_seq(dest, base, e.0), d))
}

/// All dependency-addition commands of a graph, crate by crate in graph
/// order, each crate's list in its own order.
pub open spec fn add_cmds_model(
    dest: Seq<char>,
    base: Seq<char>,
    g: Seq<(CrateModel, Seq<DepModel>)>,
) -> Seq<CmdModel>
    decreases g.len(),
{
    if g.len() == 0 {
        Seq::empty()
    } else {
        add_cmds_model(dest, base, g.drop_last()) + crate_add_cmds_model(dest, base, g.last())
    }
}

/// The project-creation commands of a graph, in graph order.
pub open spec fn new_cmds_model(
    dest: Seq<char>,
    base: Seq<char>,
    g: Seq<(CrateModel, Seq<DepModel>)>,
) -> Seq<CmdModel> {
    g.map_values(|e: (CrateModel, Seq<DepModel>)| new_cmd_model(dest, base, e.0))
}

/// The contents of the root workspace manifest.
pub open spec fn template_text() -> Seq<char> {
    "[workspace]\nresolver = \"2\"\nmembers = [\"*\"]\n"@
}

/// The fixed root manifest template, written once at
/// `{location}/Cargo.toml` when no manifest is there yet.
pub fn workspace_manifest() -> (r: String)
    ensures
        r@ == template_text(),
{
    "[workspace]\nresolver = \"2\"\nmembers = [\"*\"]\n".to_owned()
}

/// The root manifest is written only where none exists: given whether one
/// already does, returns the bytes to write, or nothing. An existing
/// manifest is never overwritten.
pub fn manifest_action(manifest_exists: bool) -> (r: Option<String>)
    ensures
        manifest_exists ==> r is None,
        !manifest_exists ==> (r matches Some(t) && t@ == template_text()),
{
    if manifest_exists {
        None
    } else {
        Some(workspace_manifest())
    }
}

/// Everything one run performs, computed up front and in order: create
/// the destination directory, write the root manifest where none exists,
/// then the project-creation commands, then the dependency-addition
/// commands.
pub struct Plan {
    pub dest_dir: String,
    pub mkdir: Cmd,
    pub manifest_path: String,
    pub manifest_contents: String,
    pub new_cmds: Vec<Cmd>,
    pub add_cmds: Vec<Cmd>,
}

/// A plan is exactly what the configuration and the graph dictate.
pub open spec fn plan_matches(
    p: Plan,
    location: Seq<char>,
    base: Seq<char>,
    g: Seq<(CrateModel, Seq<DepModel>)>,
) -> bool {
    let dest = dest_dir_seq(location, base);
    &&& p.dest_dir@ == dest
    &&& p.mkdir@ == mkdir_cmd_model(dest)
    &&& p.manifest_path@ == manifest_path_seq(location)
    &&& p.manifest_contents@ == template_text()
    &&& cmds_model(p.new_cmds@) == new_cmds_model(dest, base, g)
    &&& cmds_model(p.add_cmds@) == add_cmds_model(dest, base, g)
}

/// Builds `{location}/{base}`, the destination directory of a run.
fn dest_dir_of(conf: &Conf) -> (r: String)
    ensures
        r@ == dest_dir_seq(conf.location@, conf.project_base@),
{
    let mut s = conf.location.clone();
    s.append("/");
    s.append(conf.project_base.as_str());
    proof {
        assert(s@ =~= dest_dir_seq(conf.location@, conf.project_base@));
    }
    s
}

/// The arguments of one dependency-addition command.
pub fn add_args(dep: &Dep) -> (r: Vec<String>)
    requires
        dep@ is Local ==> dep_name_seq(dep@).len() >= 3,
    ensures
        strings_view(r@) == add_args_model(dep@),
{
    let mut args: Vec<String> = Vec::new();
    args.push("add".to_owned());
    if let Some(flag) = dep.add_flag() {
        args.push(flag.to_owned());
    }
    args.push(dep.name());
    match dep {
        Dep::Remote((_, Some(features))) => {
            args.push("--features".to_owned());
            args.push(join_features(features));
        },
        Dep::Remote((_, None)) => {},
        Dep::Local(path) => {
            let len = path.as_str().unicode_len();
            args.push(path.as_str().substring_char(3, len).to_owned());
            proof {
                assert(path@.subrange(3, path@.len() as int) =~= path@.skip(3));
            }
        },
    }
    proof {
        assert(strings_view(args@) =~= add_args_model(dep@));
    }
    args
}

/// Plans a whole run for the given configuration and dependency graph.
#[verifier::loop_isolation(false)]
pub fn make_plan(conf: &Conf, graph: &Vec<(Crate, Vec<Dep>)>) -> (p: Plan)
    requires
        locals_well_formed(graph_model(graph@)),
    ensures
        plan_matches(p, conf.location@, conf.project_base@, graph_model(graph@)),
{
    let ghost gm = graph_model(graph@);
    let ghost location = conf.location@;
    let ghost base = conf.project_base@;
    let ghost dest = dest_dir_seq(location, base);

    let dest_dir = dest_dir_of(conf);

    let mkdir = Cmd {
        program: "mkdir".to_owned(),
        cwd: None,
        args: vec!["-p".to_owned(), dest_dir.clone()],
    };
    proof {
        assert(mkdir@.args =~= mkdir_cmd_model(dest).args);
    }

    let mut manifest_path = conf.location.clone();
    manifest_path.append("/Cargo.toml");
    proof {
        assert(manifest_path@ =~= manifest_path_seq(location));
    }

    let manifest_contents = workspace_manifest();

    let mut new_cmds: Vec<Cmd> = Vec::new();
    proof {
        assert(cmds_model(new_cmds@) =~= new_cmds_model(dest, base, gm.take(0)));
    }
    let mut i: usize = 0;
    while i < graph.len()
        invariant
            i <= graph@.len(),
            cmds_model(new_cmds@) == new_cmds_model(dest, base, gm.take(i as int)),
        decreases graph@.len() - i,
    {
        let entry = &graph[i];
        let fullname = full_name(conf.project_base.as_str(), entry.0.name());
        let cmd = Cmd {
            program: "cargo".to_owned(),
            cwd: Some(dest_dir.clone()),
            args: vec!["new".to_owned(), entry.0.crate_flag().to_owned(), fullname],
        };
        proof {
            assert(gm[i as int].0 == entry.0@);
            assert(cmd@.args =~= new_cmd_model(dest, base, gm[i as int].0).args);
            assert(cmd@ == new_cmd_model(dest, base, gm[i as int].0));
        }
        let ghost prev = new_cmds@;
        let ghost cmd_model = cmd@;
        new_cmds.push(cmd);
        proof {
            assert(cmds_model(new_cmds@).len() == new_cmds_model(dest, base, gm.take(i + 1)).len());
            assert forall|l: int|
                0 <= l < i + 1 implies cmds_model(new_cmds@)[l] == new_cmds_model(
                dest,
                base,
                gm.take(i + 1),
            )[l] by {
                if l < i {
                    assert(cmds_model(new_cmds@)[l] == cmds_model(prev)[l]);
                    assert(cmds_model(prev)[l] == new_cmds_model(dest, base, gm.take(i as int))[l]);
                    assert(new_cmds_model(dest, base, gm.take(i as int))[l] == new_cmd_model(
                        dest,
                        base,
                        gm[l].0,
                    ));
                    assert(new_cmds_model(dest, base, gm.take(i + 1))[l] == new_cmd_model(
                        dest,
                        base,
                        gm[l].0,
                    ));
                } else {
                    assert(cmds_model(new_cmds@)[l] == cmd_model);
                    assert(new_cmds_model(dest, base, gm.take(i + 1))[l] == new_cmd_model(
                        dest,
                        base,
                        gm[i as int].0,
                    ));
                }
            }
            assert(cmds_model(new_cmds@) =~= new_cmds_model(dest, base, gm.take(i + 1)));
        }
        i += 1;
    }
    proof {
        assert(gm.take(gm.len() as int) =~= gm);
    }

    let mut add_cmds: Vec<Cmd> = Vec::new();
    proof {
        assert(cmds_model(add_cmds@) =~= add_cmds_model(dest, base, gm.take(0)));
    }
    let mut i: usize = 0;
    while i < graph.len()
        invariant
            i <= graph@.len(),
            cmds_model(add_cmds@) == add_cmds_model(dest, base, gm.take(i as int)),
        decreases graph@.len() - i,
    {
        let entry = &graph[i];
        let fullname = full_name(conf.project_base.as_str(), entry.0.name());
        let mut crate_dir = dest_dir.clone();
        crate_dir.append("/");
        crate_dir.append(fullname.as_str());
        proof {
            assert(gm[i as int] == entry_model(graph@[i as int]));
            assert(crate_dir@ =~= crate_dir_seq(dest, base, gm[i as int].0));
        }
        let mut j: usize = 0;
        while j < entry.1.len()
            invariant
                j <= entry.1@.len(),
                cmds_model(add_cmds@) == add_cmds_model(dest, base, gm.take(i as int))
                    + crate_add_cmds_model(dest, base, gm[i as int]).take(j as int),
            decreases entry.1@.len() - j,
        {
            proof {
                assert(gm[i as int].1[j as int] == entry.1@[j as int]@);
            }
            let cmd = Cmd {
                program: "cargo".to_owned(),
                cwd: Some(crate_dir.clone()),
                args: add_args(&entry.1[j]),
            };
            let ghost aprev = add_cmds@;
            let ghost cmdm = cmd@;
            add_cmds.push(cmd);
            proof {
                let cx = add_cmds_model(dest, base, gm.take(i as int));
                let cy = crate_add_cmds_model(dest, base, gm[i as int]);
                assert(cmdm == add_cmd_model(crate_dir_seq(dest, base, gm[i as int].0),
                    gm[i as int].1[j as int]));
                assert(cy[j as int] == cmdm);
                assert(cy.len() == gm[i as int].1.len());
                assert(cmds_model(aprev).len() == cx.len() + j);
                assert(cmds_model(add_cmds@).len() == cx.len() + j + 1);
                assert forall|l: int|
                    0 <= l < cx.len() + j + 1 implies cmds_model(add_cmds@)[l] == (cx + cy.take(
                    j + 1,
                ))[l] by {
                    if l < cx.len() + j {
                        assert(cmds_model(add_cmds@)[l] == cmds_model(aprev)[l]);
                        assert(cmds_model(aprev)[l] == (cx + cy.take(j as int))[l]);
                        if l < cx.len() {
                            assert((cx + cy.take(j as int))[l] == cx[l]);
                            assert((cx + cy.take(j + 1))[l] == cx[l]);
                        } else {
                            assert((cx + cy.take(j as int))[l] == cy[l - cx.len()]);
                            assert((cx + cy.take(j + 1))[l] == cy[l - cx.len()]);
                        }
                    } else {
                        assert(cmds_model(add_cmds@)[l] == cmdm);
                        assert((cx + cy.take(j + 1))[l] == cy[j as int]);
                    }
                }
                assert(cmds_model(add_cmds@) =~= cx + cy.take(j + 1));
            }
            j += 1;
        }
        proof {
            let e = gm[i as int];
            assert(crate_add_cmds_model(dest, base, e).take(e.1.len() as int)
                =~= crate_add_cmds_model(dest, base, e));
            assert(gm.take(i + 1).drop_last() =~= gm.take(i as int));
            assert(gm.take(i + 1).last() == e);
            assert(cmds_model(add_cmds@) =~= add_cmds_model(dest, base, gm.take(i + 1)));
        }
        i += 1;
    }
    proof {
        assert(gm.take(gm.len() as int) =~= gm);
    }

    Plan { dest_dir, mkdir, manifest_path, manifest_contents, new_cmds, add_cmds }
}

/// Builds the dependency graph for the configuration's base name and
/// plans the whole run from it.
pub fn make_default_plan(conf: &Conf) -> (p: Plan)
    ensures
        plan_matches(p, conf.location@, conf.project_base@, spec_mappings(conf.project_base@)),
{
    proof {
        lemma_graph_shape(conf.project_base@);
    }
    let graph = mappings(conf.project_base.as_str());
    make_plan(conf, &graph)
}

} // verus!
