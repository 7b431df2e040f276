//! The declarative dependency graph: which crates a generated workspace
//! holds, and what each of them depends on.
//!
//! The graph is hand-authored data. [`mappings`] builds it for a given
//! project base name; [`spec_mappings`] is the mathematical statement of
//! the same table, entry for entry.

use vstd::prelude::*;

use crate::text::local_path;
use crate::text::local_path_seq;
use crate::text::strs_view;

verus! {

/// The mathematical model of a dependency: a registry package with
/// optional feature flags, or a sibling crate referenced by relative path.
pub enum DepModel {
    Remote { name: Seq<char>, features: Option<Seq<Seq<char>>> },
    Local { path: Seq<char> },
}

/// A dependency of a generated crate: a registry package (with optional
/// feature flags), or a sibling crate of the same workspace referenced by
/// relative path.
#[derive(Debug, PartialEq)]
pub enum Dep {
    Remote((&'static str, Option<Vec<&'static str>>)),
    Local(String),
}

impl View for Dep {
    type V = DepModel;

    open spec fn view(&self) -> DepModel {
        match self {
            Dep::Remote((name, features)) => DepModel::Remote {
                name: name@,
                features: match features {
                    Some(fs) => Some(strs_view(fs@)),
                    None => None,
                },
            },
            Dep::Local(path) => DepModel::Local { path: path@ },
        }
    }
}

/// The argument that names a dependency to the package manager: the
/// package name for a remote dependency, the relative path for a local one.
pub open spec fn dep_name_seq(d: DepModel) -> Seq<char> {
    match d {
        DepModel::Remote { name, .. } => name,
        DepModel::Local { path } => path,
    }
}

impl Dep {
    /// The argument that names this dependency to the package manager.
    pub fn name(&self) -> (r: String)
        ensures
            r@ == dep_name_seq(self@),
    {
        match self {
            Dep::Remote((name, _)) => (*name).to_owned(),
            Dep::Local(name) => name.clone(),
        }
    }

    /// The flag that precedes the name where one is needed: local
    /// dependencies are added by path, remote ones take no flag.
    pub fn add_flag(&self) -> (r: Option<&'static str>)
        ensures
            r is Some <==> self@ is Local,
            r matches Some(f) ==> f@ == "--path"@,
    {
        match self {
            Dep::Remote(_) => None,
            Dep::Local(_) => Some("--path"),
        }
    }
}

/// The mathematical model of a crate identity: one binary or library
/// sub-project, by short name.
pub enum CrateModel {
    Bin { name: Seq<char> },
    Lib { name: Seq<char> },
}

/// A crate to generate: one binary or library sub-project, by short name.
/// Identity is name plus kind.
#[derive(Debug, PartialEq, Eq, Hash)]
pub enum Crate {
    Bin(&'static str),
    Lib(&'static str),
}

impl View for Crate {
    type V = CrateModel;

    open spec fn view(&self) -> CrateModel {
        match self {
            Crate::Bin(name) => CrateModel::Bin { name: name@ },
            Crate::Lib(name) => CrateModel::Lib { name: name@ },
        }
    }
}

/// The short name of a crate identity.
pub open spec fn crate_name_seq(c: CrateModel) -> Seq<char> {
    match c {
        CrateModel::Bin { name } => name,
        CrateModel::Lib { name } => name,
    }
}

/// The flag handed to the project-creation command for a crate identity.
pub open spec fn crate_flag_seq(c: CrateModel) -> Seq<char> {
    match c {
        CrateModel::Bin { .. } => "--bin"@,
        CrateModel::Lib { .. } => "--lib"@,
    }
}

impl Crate {
    /// The short name of this crate.
    pub fn name(&self) -> (r: &'static str)
        ensures
            r@ == crate_name_seq(self@),
    {
        match self {
            Crate::Bin(name) => *name,
            Crate::Lib(name) => *name,
        }
    }

    /// The flag handed to the project-creation command: binaries and
    /// libraries are created differently.
    pub fn crate_flag(&self) -> (r: &'static str)
        ensures
            r@ == crate_flag_seq(self@),
    {
        match self {
            Crate::Bin(_) => "--bin",
            Crate::Lib(_) => "--lib",
        }
    }
}

/// The models of a list of dependencies.
pub open spec fn deps_model(ds: Seq<Dep>) -> Seq<DepModel> {
    ds.map_values(|d: Dep| d@)
}

/// The model of one graph entry: a crate identity with its ordered
/// dependency list.
pub open spec fn entry_model(e: (Crate, Vec<Dep>)) -> (CrateModel, Seq<DepModel>) {
    (e.0@, deps_model(e.1@))
}

/// The model of a whole dependency graph.
pub open spec fn graph_model(g: Seq<(Crate, Vec<Dep>)>) -> Seq<(CrateModel, Seq<DepModel>)> {
    g.map_values(|e: (Crate, Vec<Dep>)| entry_model(e))
}

/// A remote dependency without feature flags.
fn remote(name: &'static str) -> (d: Dep)
    ensures
        d@ == (DepModel::Remote { name: name@, features: None }),
{
    Dep::Remote((name, None))
}

/// A remote dependency with the given feature flags.
fn remote_with(name: &'static str, features: Vec<&'static str>) -> (d: Dep)
    ensures
        d@ == (DepModel::Remote { name: name@, features: Some(strs_view(features@)) }),
{
    Dep::Remote((name, Some(features)))
}

/// A local dependency on the sibling crate `{base}-{sib}`.
fn local(base: &str, sib: &str) -> (d: Dep)
    ensures
        d@ == (DepModel::Local { path: local_path_seq(base@, sib@) }),
{
    Dep::Local(local_path(base, sib))
}

/// The dependencies of the `rs` client library.
pub open spec fn rs_deps(base: Seq<char>) -> Seq<DepModel> {
    seq![
        DepModel::Local { path: local_path_seq(base, "http"@) },
        DepModel::Remote { name: "reqwest"@, features: Some(seq!["json"@]) },
        DepModel::Remote { name: "tracing"@, features: None },
        DepModel::Remote { name: "url"@, features: Some(seq!["serde"@]) },
    ]
}

/// The dependencies of the `http` transport library.
pub open spec fn http_deps(base: Seq<char>) -> Seq<DepModel> {
    seq![
        DepModel::Local { path: local_path_seq(base, "kernel"@) },
        DepModel::Remote { name: "chrono"@, features: Some(seq!["serde"@]) },
        DepModel::Remote { name: "serde"@, features: Some(seq!["derive"@]) },
        DepModel::Remote { name: "serde_json"@, features: Some(seq!["derive"@]) },
        DepModel::Remote { name: "uuid"@, features: Some(seq!["serde"@, "v4"@]) },
    ]
}

/// The dependencies of the `api` server binary.
pub open spec fn api_deps(base: Seq<char>) -> Seq<DepModel> {
    seq![
        DepModel::Local { path: local_path_seq(base, "http"@) },
        DepModel::Local { path: local_path_seq(base, "kernel"@) },
        DepModel::Local { path: local_path_seq(base, "postgres"@) },
        DepModel::Local { path: local_path_seq(base, "repository"@) },
        DepModel::Remote { name: "async-trait"@, features: None },
        DepModel::Remote {
            name: "axum"@,
            features: Some(
                seq![
                    "http1"@,
                    "json"@,
                    "macros"@,
                    "matched-path"@,
                    "original-uri"@,
                    "tower-log"@,
                    "query"@,
                ],
            ),
        },
        DepModel::Remote { name: "axum-macros"@, features: None },
        DepModel::Remote { name: "axum-test"@, features: None },
        DepModel::Remote { name: "tokio"@, features: Some(seq!["full"@]) },
        DepModel::Remote { name: "tower-http"@, features: Some(seq!["cors"@]) },
        DepModel::Remote { name: "tracing"@, features: None },
        DepModel::Remote { name: "uuid"@, features: Some(seq!["serde"@, "v4"@]) },
    ]
}

/// The dependencies of the `kernel` domain library.
pub open spec fn kernel_deps(base: Seq<char>) -> Seq<DepModel> {
    seq![
        DepModel::Remote { name: "async-trait"@, features: None },
        DepModel::Remote { name: "chrono"@, features: Some(seq!["serde"@]) },
        DepModel::Remote { name: "tracing"@, features: None },
        DepModel::Remote { name: "uuid"@, features: Some(seq!["serde"@, "v4"@]) },
    ]
}

/// The dependencies of the `services` library.
pub open spec fn services_deps(base: Seq<char>) -> Seq<DepModel> {
    seq![
        DepModel::Local { path: local_path_seq(base, "kernel"@) },
        DepModel::Local { path: local_path_seq(base, "repository"@) },
        DepModel::Remote { name: "async-trait"@, features: None },
        DepModel::Remote { name: "tokio"@, features: Some(seq!["full"@]) },
        DepModel::Remote { name: "chrono"@, features: Some(seq!["serde"@]) },
        DepModel::Remote { name: "tracing"@, features: None },
        DepModel::Remote { name: "uuid"@, features: Some(seq!["serde"@, "v4"@]) },
    ]
}

/// The dependencies of the `repository` abstraction library.
pub open spec fn repository_deps(base: Seq<char>) -> Seq<DepModel> {
    seq![
        DepModel::Local { path: local_path_seq(base, "kernel"@) },
        DepModel::Remote { name: "async-trait"@, features: None },
        DepModel::Remote { name: "chrono"@, features: Some(seq!["serde"@]) },
        DepModel::Remote { name: "tracing"@, features: None },
        DepModel::Remote { name: "uuid"@, features: Some(seq!["serde"@, "v4"@]) },
    ]
}

/// The dependencies of the `postgres` storage library.
pub open spec fn postgres_deps(base: Seq<char>) -> Seq<DepModel> {
    seq![
        DepModel::Local { path: local_path_seq(base, "repository"@) },
        DepModel::Remote { name: "async-trait"@, features: None },
        DepModel::Remote { name: "chrono"@, features: Some(seq!["serde"@]) },
        DepModel::Remote {
            name: "sqlx"@,
            features: Some(
                seq!["chrono"@, "migrate"@, "postgres"@, "runtime-tokio-rustls"@, "uuid"@],
            ),
        },
        DepModel::Remote { name: "tokio"@, features: Some(seq!["full"@]) },
        DepModel::Remote { name: "tracing"@, features: None },
        DepModel::Remote { name: "uuid"@, features: Some(seq!["serde"@, "v4"@]) },
    ]
}

/// The whole dependency graph for a given project base name: each crate
/// of the layered template, with its ordered dependency list.
pub open spec fn spec_mappings(base: Seq<char>) -> Seq<(CrateModel, Seq<DepModel>)> {
    seq![
        (CrateModel::Lib { name: "rs"@ }, rs_deps(base)),
        (CrateModel::Lib { name: "http"@ }, http_deps(base)),
        (CrateModel::Bin { name: "api"@ }, api_deps(base)),
        (CrateModel::Lib { name: "kernel"@ }, kernel_deps(base)),
        (CrateModel::Lib { name: "services"@ }, services_deps(base)),
        (CrateModel::Lib { name: "repository"@ }, repository_deps(base)),
        (CrateModel::Lib { name: "postgres"@ }, postgres_deps(base)),
    ]
}

/// Every local dependency of a graph resolves to a sibling: its path is
/// `../{base}-{name}` for the short name of some crate that the graph
/// itself contains.
pub open spec fn locals_resolve(base: Seq<char>, g: Seq<(CrateModel, Seq<DepModel>)>) -> bool {
    forall|i: int, j: int|
        0 <= i < g.len() && 0 <= j < g[i].1.len() && #[trigger] g[i].1[j] is Local
            ==> exists|k: int|
                0 <= k < g.len() && dep_name_seq(g[i].1[j]) == local_path_seq(
                    base,
                    crate_name_seq(#[trigger] g[k].0),
                )
}

/// Every local dependency path of a graph is at least as long as its
/// `../` prefix.
pub open spec fn locals_well_formed(g: Seq<(CrateModel, Seq<DepModel>)>) -> bool {
    forall|i: int, j: int|
        0 <= i < g.len() && 0 <= j < g[i].1.len() && #[trigger] g[i].1[j] is Local
            ==> dep_name_seq(g[i].1[j]).len() >= 3
}

/// The shape of the dependency graph, for any project base name: exactly
/// seven crate identities, those of the layered template, and every local
/// dependency resolves by the `../{base}-{name}` convention to a sibling
/// crate that the graph itself contains.
pub proof fn lemma_graph_shape(base: Seq<char>)
    ensures
        spec_mappings(base).len() == 7,
        spec_mappings(base)[0].0 == (CrateModel::Lib { name: "rs"@ }),
        spec_mappings(base)[1].0 == (CrateModel::Lib { name: "http"@ }),
        spec_mappings(base)[2].0 == (CrateModel::Bin { name: "api"@ }),
        spec_mappings(base)[3].0 == (CrateModel::Lib { name: "kernel"@ }),
        spec_mappings(base)[4].0 == (CrateModel::Lib { name: "services"@ }),
        spec_mappings(base)[5].0 == (CrateModel::Lib { name: "repository"@ }),
        spec_mappings(base)[6].0 == (CrateModel::Lib { name: "postgres"@ }),
        locals_resolve(base, spec_mappings(base)),
        locals_well_formed(spec_mappings(base)),
{
    let g = spec_mappings(base);
    assert(crate_name_seq(g[1].0) == "http"@);
    assert(crate_name_seq(g[3].0) == "kernel"@);
    assert(crate_name_seq(g[5].0) == "repository"@);
    assert(crate_name_seq(g[6].0) == "postgres"@);
    assert forall|i: int, j: int|
        0 <= i < g.len() && 0 <= j < g[i].1.len() && #[trigger] g[i].1[j] is Local implies exists|
        k: int,
    |
        0 <= k < g.len() && dep_name_seq(g[i].1[j]) == local_path_seq(
            base,
            crate_name_seq(#[trigger] g[k].0),
        ) by {
        if dep_name_seq(g[i].1[j]) == local_path_seq(base, "http"@) {
            assert(0 <= 1 < g.len() && dep_name_seq(g[i].1[j]) == local_path_seq(
                base,
                crate_name_seq(g[1].0),
            ));
        } else if dep_name_seq(g[i].1[j]) == local_path_seq(base, "kernel"@) {
            assert(0 <= 3 < g.len() && dep_name_seq(g[i].1[j]) == local_path_seq(
                base,
                crate_name_seq(g[3].0),
            ));
        } else if dep_name_seq(g[i].1[j]) == local_path_seq(base, "repository"@) {
            assert(0 <= 5 < g.len() && dep_name_seq(g[i].1[j]) == local_path_seq(
                base,
                crate_name_seq(g[5].0),
            ));
        } else {
            assert(dep_name_seq(g[i].1[j]) == local_path_seq(base, "postgres"@));
            assert(0 <= 6 < g.len() && dep_name_seq(g[i].1[j]) == local_path_seq(
                base,
                crate_name_seq(g[6].0),
            ));
        }
    }
    assert forall|i: int, j: int|
        0 <= i < g.len() && 0 <= j < g[i].1.len() && #[trigger] g[i].1[j] is Local implies
        dep_name_seq(g[i].1[j]).len() >= 3 by {
        reveal_strlit("../");
    }
}

/// No two entries of the graph collide: the seven crate identities are
/// pairwise distinct, by name and kind.
pub proof fn lemma_graph_keys_distinct(base: Seq<char>)
    ensures
        forall|a: int, b: int|
            0 <= a < spec_mappings(base).len() && 0 <= b < spec_mappings(base).len() && a != b
                ==> spec_mappings(base)[a].0 != spec_mappings(base)[b].0,
{
    reveal_strlit("rs");
    reveal_strlit("http");
    reveal_strlit("api");
    reveal_strlit("kernel");
    reveal_strlit("services");
    reveal_strlit("repository");
    reveal_strlit("postgres");
    assert("services"@ != "postgres"@) by {
        assert("services"@[0] != "postgres"@[0]);
    }
    assert("rs"@.len() == 2 && "http"@.len() == 4 && "api"@.len() == 3 && "kernel"@.len() == 6
        && "services"@.len() == 8 && "repository"@.len() == 10 && "postgres"@.len() == 8);
    let g = spec_mappings(base);
    assert forall|a: int, b: int| 0 <= a < g.len() && 0 <= b < g.len() && a != b implies g[a].0
        != g[b].0 by {
        assert(a == 0 || a == 1 || a == 2 || a == 3 || a == 4 || a == 5 || a == 6);
        assert(b == 0 || b == 1 || b == 2 || b == 3 || b == 4 || b == 5 || b == 6);
    }
}

/// The builder is a pure function of the project base name: two graphs
/// built from the same base are identical, key for key and dependency
/// list for dependency list.
pub proof fn lemma_mappings_deterministic(
    g1: Seq<(CrateModel, Seq<DepModel>)>,
    g2: Seq<(CrateModel, Seq<DepModel>)>,
    base: Seq<char>,
)
    requires
        g1 == spec_mappings(base),
        g2 == spec_mappings(base),
    ensures
        g1 == g2,
{
}

/// A fresh `async-trait` dependency.
fn dep_async_trait() -> (d: Dep)
    ensures
        d@ == (DepModel::Remote { name: "async-trait"@, features: None }),
{
    remote("async-trait")
}

/// A fresh `chrono` dependency with its `serde` feature.
fn dep_chrono() -> (d: Dep)
    ensures
        d@ == (DepModel::Remote { name: "chrono"@, features: Some(seq!["serde"@]) }),
{
    let fs: Vec<&'static str> = vec!["serde"];
    proof {
        assert(strs_view(fs@) =~= seq!["serde"@]);
    }
    remote_with("chrono", fs)
}

/// A fresh `tracing` dependency.
fn dep_tracing() -> (d: Dep)
    ensures
        d@ == (DepModel::Remote { name: "tracing"@, features: None }),
{
    remote("tracing")
}

/// A fresh `tokio` dependency with its `full` feature.
fn dep_tokio() -> (d: Dep)
    ensures
        d@ == (DepModel::Remote { name: "tokio"@, features: Some(seq!["full"@]) }),
{
    let fs: Vec<&'static str> = vec!["full"];
    proof {
        assert(strs_view(fs@) =~= seq!["full"@]);
    }
    remote_with("tokio", fs)
}

/// A fresh `uuid` dependency with its `serde` and `v4` features.
fn dep_uuid() -> (d: Dep)
    ensures
        d@ == (DepModel::Remote { name: "uuid"@, features: Some(seq!["serde"@, "v4"@]) }),
{
    let fs: Vec<&'static str> = vec!["serde", "v4"];
    proof {
        assert(strs_view(fs@) =~= seq!["serde"@, "v4"@]);
    }
    remote_with("uuid", fs)
}

/// Builds the dependency graph for the given project base name.
///
/// The result is exactly [`spec_mappings`] of the base name: the builder
/// is a pure function of its argument, with no other inputs and no side
/// effects.
pub fn mappings(project_base: &str) -> (r: Vec<(Crate, Vec<Dep>)>)
    ensures
        graph_model(r@) == spec_mappings(project_base@),
{
    let f_json: Vec<&'static str> = vec!["json"];
    proof {
        assert(strs_view(f_json@) =~= seq!["json"@]);
    }
    let f_url: Vec<&'static str> = vec!["serde"];
    proof {
        assert(strs_view(f_url@) =~= seq!["serde"@]);
    }
    let rs_list: Vec<Dep> = vec![
        local(project_base, "http"),
        remote_with("reqwest", f_json),
        dep_tracing(),
        remote_with("url", f_url),
    ];
    proof {
        assert(deps_model(rs_list@) =~= rs_deps(project_base@));
    }

    let f_serde: Vec<&'static str> = vec!["derive"];
    proof {
        assert(strs_view(f_serde@) =~= seq!["derive"@]);
    }
    let f_serde_json: Vec<&'static str> = vec!["derive"];
    proof {
        assert(strs_view(f_serde_json@) =~= seq!["derive"@]);
    }
    let http_list: Vec<Dep> = vec![
        local(project_base, "kernel"),
        dep_chrono(),
        remote_with("serde", f_serde),
        remote_with("serde_json", f_serde_json),
        dep_uuid(),
    ];
    proof {
        assert(deps_model(http_list@) =~= http_deps(project_base@));
    }

    let f_axum: Vec<&'static str> = vec![
        "http1",
        "json",
        "macros",
        "matched-path",
        "original-uri",
        "tower-log",
        "query",
    ];
    proof {
        assert(strs_view(f_axum@) =~= seq![
            "http1"@,
            "json"@,
            "macros"@,
            "matched-path"@,
            "original-uri"@,
            "tower-log"@,
            "query"@,
        ]);
    }
    let f_cors: Vec<&'static str> = vec!["cors"];
    proof {
        assert(strs_view(f_cors@) =~= seq!["cors"@]);
    }
    let api_list: Vec<Dep> = vec![
        local(project_base, "http"),
        local(project_base, "kernel"),
        local(project_base, "postgres"),
        local(project_base, "repository"),
        dep_async_trait(),
        remote_with("axum", f_axum),
        remote("axum-macros"),
        remote("axum-test"),
        dep_tokio(),
        remote_with("tower-http", f_cors),
        dep_tracing(),
        dep_uuid(),
    ];
    proof {
        assert(deps_model(api_list@) =~= api_deps(project_base@));
    }

    let kernel_list: Vec<Dep> = vec![
        dep_async_trait(),
        dep_chrono(),
        dep_tracing(),
        dep_uuid(),
    ];
    proof {
        assert(deps_model(kernel_list@) =~= kernel_deps(project_base@));
    }

    let services_list: Vec<Dep> = vec![
        local(project_base, "kernel"),
        local(project_base, "repository"),
        dep_async_trait(),
        dep_tokio(),
        dep_chrono(),
        dep_tracing(),
        dep_uuid(),
    ];
    proof {
        assert(deps_model(services_list@) =~= services_deps(project_base@));
    }

    let repository_list: Vec<Dep> = vec![
        local(project_base, "kernel"),
        dep_async_trait(),
        dep_chrono(),
        dep_tracing(),
        dep_uuid(),
    ];
    proof {
        assert(deps_model(repository_list@) =~= repository_deps(project_base@));
    }

    let f_sqlx: Vec<&'static str> = vec![
        "chrono",
        "migrate",
        "postgres",
        "runtime-tokio-rustls",
        "uuid",
    ];
    proof {
        assert(strs_view(f_sqlx@) =~= seq![
            "chrono"@,
            "migrate"@,
            "postgres"@,
            "runtime-tokio-rustls"@,
            "uuid"@,
        ]);
    }
    let postgres_list: Vec<Dep> = vec![
        local(project_base, "repository"),
        dep_async_trait(),
        dep_chrono(),
        remote_with("sqlx", f_sqlx),
        dep_tokio(),
        dep_tracing(),
        dep_uuid(),
    ];
    proof {
        assert(deps_model(postgres_list@) =~= postgres_deps(project_base@));
    }

    let r: Vec<(Crate, Vec<Dep>)> = vec![
        (Crate::Lib("rs"), rs_list),
        (Crate::Lib("http"), http_list),
        (Crate::Bin("api"), api_list),
        (Crate::Lib("kernel"), kernel_list),
        (Crate::Lib("services"), services_list),
        (Crate::Lib("repository"), repository_list),
        (Crate::Lib("postgres"), postgres_list),
    ];
    proof {
        assert(graph_model(r@) =~= spec_mappings(project_base@));
    }
    r
}

} // verus!
