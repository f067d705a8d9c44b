use tonic_buf_build::manifest::BufWorkYaml;
use tonic_buf_build::manifest::BufYaml;

#[test]
fn deps_order_and_values_are_kept() {
    let b = BufYaml::from_deps(Some(vec!["x".to_string(), "y".to_string()]));
    assert_eq!(b.deps, vec!["x".to_string(), "y".to_string()]);
}

#[test]
fn missing_deps_is_an_empty_list() {
    let b = BufYaml::from_deps(None);
    assert_eq!(b.deps, Vec::<String>::new());
}

#[test]
fn directories_order_and_values_are_kept() {
    let w = BufWorkYaml::from_directories(Some(vec!["one".to_string(), "two".to_string()]));
    assert_eq!(w.directories, vec!["one".to_string(), "two".to_string()]);
}

#[test]
fn missing_directories_is_an_empty_list() {
    let w = BufWorkYaml::from_directories(None);
    assert_eq!(w.directories, Vec::<String>::new());
}

// Loading a parsed manifest document end to end: the YAML text of a module
// manifest with `deps: [x, y]` yields exactly those references in order.
#[test]
fn loaded_yaml_deps_keep_order_and_values() {
    let doc: serde_yaml::Value = serde_yaml::from_str("version: v1\ndeps:\n  - x\n  - y\n").unwrap();
    let deps: Option<Vec<String>> = doc.get("deps").map(|v| {
        v.as_sequence()
            .unwrap()
            .iter()
            .map(|s| s.as_str().unwrap().to_string())
            .collect()
    });
    let b = BufYaml::from_deps(deps);
    assert_eq!(b.deps, vec!["x".to_string(), "y".to_string()]);
}

#[test]
fn loaded_yaml_without_deps_field() {
    let doc: serde_yaml::Value = serde_yaml::from_str("version: v1\n").unwrap();
    let deps: Option<Vec<String>> = doc.get("deps").map(|v| {
        v.as_sequence()
            .unwrap()
            .iter()
            .map(|s| s.as_str().unwrap().to_string())
            .collect()
    });
    let b = BufYaml::from_deps(deps);
    assert_eq!(b.deps, Vec::<String>::new());
}
