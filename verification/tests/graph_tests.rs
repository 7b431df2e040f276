use wsgen::graph::Crate;
use wsgen::graph::Dep;
use wsgen::graph::mappings;

fn crate_names(graph: &Vec<(Crate, Vec<Dep>)>) -> Vec<&'static str> {
    graph.iter().map(|e| e.0.name()).collect()
}

#[test]
fn builder_returns_seven_crates() {
    let graph = mappings("proj");
    assert_eq!(graph.len(), 7);
    let mut names = crate_names(&graph);
    names.sort();
    assert_eq!(
        names,
        vec!["api", "http", "kernel", "postgres", "repository", "rs", "services"]
    );
}

#[test]
fn only_the_api_crate_is_a_binary() {
    let graph = mappings("proj");
    for (crate_, _) in graph.iter() {
        if crate_.name() == "api" {
            assert_eq!(crate_.crate_flag(), "--bin");
        } else {
            assert_eq!(crate_.crate_flag(), "--lib");
        }
    }
}

#[test]
fn local_entries_name_siblings_by_relative_path() {
    let graph = mappings("proj");
    let names = crate_names(&graph);
    for (_, deps) in graph.iter() {
        for dep in deps.iter() {
            if let Dep::Local(path) = dep {
                let sibling = path
                    .strip_prefix("../proj-")
                    .expect("local path must start with ../proj-");
                assert!(names.iter().any(|n| *n == sibling));
            }
        }
    }
}

#[test]
fn builder_is_pure() {
    assert_eq!(mappings("demo"), mappings("demo"));
    assert_eq!(mappings(""), mappings(""));
}

#[test]
fn dep_name_returns_package_name_or_path() {
    let remote = Dep::Remote(("tracing", None));
    assert_eq!(remote.name(), "tracing");
    let local = Dep::Local("../shop-kernel".to_string());
    assert_eq!(local.name(), "../shop-kernel");
}

#[test]
fn add_flag_only_for_local_deps() {
    let remote = Dep::Remote(("tracing", None));
    assert_eq!(remote.add_flag(), None);
    let local = Dep::Local("../shop-kernel".to_string());
    assert_eq!(local.add_flag(), Some("--path"));
}

#[test]
fn crate_identity_name_and_flag() {
    assert_eq!(Crate::Bin("api").name(), "api");
    assert_eq!(Crate::Bin("api").crate_flag(), "--bin");
    assert_eq!(Crate::Lib("kernel").name(), "kernel");
    assert_eq!(Crate::Lib("kernel").crate_flag(), "--lib");
}

#[test]
fn kernel_has_only_remote_deps() {
    let graph = mappings("proj");
    let kernel = graph
        .iter()
        .find(|e| e.0.name() == "kernel")
        .expect("kernel crate present");
    assert_eq!(kernel.1.len(), 4);
    for dep in kernel.1.iter() {
        assert!(matches!(dep, Dep::Remote(_)));
    }
}

#[test]
fn http_depends_on_kernel_locally() {
    let graph = mappings("shop");
    let http = graph
        .iter()
        .find(|e| e.0.name() == "http")
        .expect("http crate present");
    assert_eq!(http.1[0], Dep::Local("../shop-kernel".to_string()));
}
