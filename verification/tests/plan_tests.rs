use wsgen::graph::Dep;
use wsgen::plan::Cmd;
use wsgen::plan::Conf;
use wsgen::plan::add_args;
use wsgen::plan::make_default_plan;
use wsgen::plan::manifest_action;
use wsgen::plan::workspace_manifest;
use wsgen::text::full_name;
use wsgen::text::join_features;
use wsgen::text::local_path;

#[test]
fn join_of_one_feature_has_no_separator() {
    assert_eq!(join_features(&vec!["json"]), "json");
}

#[test]
fn join_of_two_features_has_one_comma_and_no_trailing_one() {
    assert_eq!(join_features(&vec!["serde", "v4"]), "serde,v4");
}

#[test]
fn join_of_many_features() {
    assert_eq!(
        join_features(&vec!["chrono", "migrate", "postgres", "runtime-tokio-rustls", "uuid"]),
        "chrono,migrate,postgres,runtime-tokio-rustls,uuid"
    );
}

#[test]
fn join_of_no_features_is_empty() {
    let empty: Vec<&'static str> = vec![];
    assert_eq!(join_features(&empty), "");
}

#[test]
fn local_naming_for_shop_kernel() {
    assert_eq!(local_path("shop", "kernel"), "../shop-kernel");
    assert_eq!(full_name("shop", "kernel"), "shop-kernel");
}

#[test]
fn manifest_skipped_when_one_exists() {
    assert_eq!(manifest_action(true), None);
}

#[test]
fn manifest_written_when_absent() {
    assert_eq!(manifest_action(false), Some(workspace_manifest()));
}

#[test]
fn add_args_for_remote_without_features() {
    let args = add_args(&Dep::Remote(("tracing", None)));
    assert_eq!(args, vec!["add".to_string(), "tracing".to_string()]);
}

#[test]
fn add_args_for_remote_with_features() {
    let args = add_args(&Dep::Remote(("uuid", Some(vec!["serde", "v4"]))));
    assert_eq!(
        args,
        vec![
            "add".to_string(),
            "uuid".to_string(),
            "--features".to_string(),
            "serde,v4".to_string(),
        ]
    );
}

#[test]
fn add_args_for_local_sibling() {
    let args = add_args(&Dep::Local("../demo-http".to_string()));
    assert_eq!(
        args,
        vec![
            "add".to_string(),
            "--path".to_string(),
            "../demo-http".to_string(),
            "demo-http".to_string(),
        ]
    );
}

fn cmd_names_created(cmds: &Vec<Cmd>) -> Vec<String> {
    cmds.iter().map(|c| c.args[2].clone()).collect()
}

#[test]
fn end_to_end_plan_for_tmp_ws_demo() {
    let conf = Conf { location: "/tmp/ws".to_string(), project_base: "demo".to_string() };
    let plan = make_default_plan(&conf);

    assert_eq!(plan.dest_dir, "/tmp/ws/demo");
    assert_eq!(plan.mkdir.program, "mkdir");
    assert_eq!(plan.mkdir.cwd, None);
    assert_eq!(plan.mkdir.args, vec!["-p".to_string(), "/tmp/ws/demo".to_string()]);

    assert_eq!(plan.manifest_path, "/tmp/ws/Cargo.toml");
    assert_eq!(plan.manifest_contents, workspace_manifest());

    assert_eq!(plan.new_cmds.len(), 7);
    let mut created = cmd_names_created(&plan.new_cmds);
    created.sort();
    assert_eq!(
        created,
        vec![
            "demo-api",
            "demo-http",
            "demo-kernel",
            "demo-postgres",
            "demo-repository",
            "demo-rs",
            "demo-services",
        ]
    );
    for cmd in plan.new_cmds.iter() {
        assert_eq!(cmd.program, "cargo");
        assert_eq!(cmd.cwd, Some("/tmp/ws/demo".to_string()));
        assert_eq!(cmd.args[0], "new");
        let flag = if cmd.args[2] == "demo-api" { "--bin" } else { "--lib" };
        assert_eq!(cmd.args[1], flag);
    }

    assert_eq!(plan.add_cmds.len(), 44);
    for cmd in plan.add_cmds.iter() {
        assert_eq!(cmd.program, "cargo");
        assert_eq!(cmd.args[0], "add");
    }

    let first = &plan.add_cmds[0];
    assert_eq!(first.cwd, Some("/tmp/ws/demo/demo-rs".to_string()));
    assert_eq!(
        first.args,
        vec![
            "add".to_string(),
            "--path".to_string(),
            "../demo-http".to_string(),
            "demo-http".to_string(),
        ]
    );

    let reqwest = plan
        .add_cmds
        .iter()
        .find(|c| c.args.get(1).map(|a| a.as_str()) == Some("reqwest"))
        .expect("reqwest dependency planned");
    assert_eq!(
        reqwest.args,
        vec![
            "add".to_string(),
            "reqwest".to_string(),
            "--features".to_string(),
            "json".to_string(),
        ]
    );

    let sqlx = plan
        .add_cmds
        .iter()
        .find(|c| c.args.get(1).map(|a| a.as_str()) == Some("sqlx"))
        .expect("sqlx dependency planned");
    assert_eq!(sqlx.cwd, Some("/tmp/ws/demo/demo-postgres".to_string()));
    assert_eq!(sqlx.args[3], "chrono,migrate,postgres,runtime-tokio-rustls,uuid");
}

#[test]
fn workspace_manifest_is_fixed() {
    let text = workspace_manifest();
    assert_eq!(text, "[workspace]\nresolver = \"2\"\nmembers = [\"*\"]\n");
}
