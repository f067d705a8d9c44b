use tonic_buf_build::paths::for_single_module;
use tonic_buf_build::paths::for_workspace;
use tonic_buf_build::paths::join_path;

#[test]
fn single_module_order_is_module_then_staging() {
    let r = for_single_module("s", "t");
    assert_eq!(r, vec!["s".to_string(), "t".to_string()]);
}

#[test]
fn workspace_order_is_staging_then_members() {
    let members = vec!["a".to_string(), "b".to_string()];
    let r = for_workspace("t", &members);
    assert_eq!(r, vec!["t".to_string(), "a".to_string(), "b".to_string()]);
}

#[test]
fn workspace_with_no_members() {
    let members: Vec<String> = vec![];
    let r = for_workspace("stage", &members);
    assert_eq!(r, vec!["stage".to_string()]);
}

#[test]
fn paths_are_not_deduplicated() {
    let members = vec!["t".to_string(), "t".to_string()];
    let r = for_workspace("t", &members);
    assert_eq!(r, vec!["t".to_string(), "t".to_string(), "t".to_string()]);
}

#[test]
fn join_inserts_one_separator() {
    assert_eq!(join_path("base", "rel"), "base/rel".to_string());
    assert_eq!(join_path(".", "buf.yaml"), "./buf.yaml".to_string());
}
