use tonic_buf_build::error::TonicBufBuildError;
use tonic_buf_build::manifest::BufWorkYaml;
use tonic_buf_build::manifest::BufYaml;
use tonic_buf_build::pipeline::Command;
use tonic_buf_build::pipeline::Event;
use tonic_buf_build::pipeline::SingleModuleRun;
use tonic_buf_build::pipeline::WorkspaceRun;
use tonic_buf_build::pipeline::export_all_from_workspace;
use tonic_buf_build::pipeline::single_result;
use tonic_buf_build::pipeline::single_step;
use tonic_buf_build::pipeline::start_single_module;
use tonic_buf_build::pipeline::start_workspace;
use tonic_buf_build::pipeline::workspace_result;
use tonic_buf_build::pipeline::workspace_step;

fn manifest(deps: &[&str]) -> BufYaml {
    BufYaml::from_deps(Some(deps.iter().map(|s| s.to_string()).collect()))
}

fn expect_load_module(cmd: &Command) -> String {
    match cmd {
        Command::LoadModule { path } => path.clone(),
        _ => panic!("expected a module manifest load"),
    }
}

fn expect_export(cmd: &Command) -> (String, String) {
    match cmd {
        Command::Export { dep, out_dir } => (dep.clone(), out_dir.clone()),
        _ => panic!("expected an export"),
    }
}

fn expect_ls_files(cmd: &Command) -> String {
    match cmd {
        Command::LsFiles { path } => path.clone(),
        _ => panic!("expected a listing"),
    }
}

fn expect_compile(cmd: &Command) -> (Vec<String>, Vec<String>) {
    match cmd {
        Command::Compile { protos, search_dirs } => (protos.clone(), search_dirs.clone()),
        _ => panic!("expected a compile"),
    }
}

fn expect_remove(cmd: &Command) -> String {
    match cmd {
        Command::Remove { path } => path.clone(),
        _ => panic!("expected the staging cleanup"),
    }
}

fn step_single(run: SingleModuleRun, ev: Event) -> (SingleModuleRun, Option<Command>) {
    single_step(run, ev)
}

fn step_workspace(run: WorkspaceRun, ev: Event) -> (WorkspaceRun, Option<Command>) {
    workspace_step(run, ev)
}

#[test]
fn single_run_full_success() {
    let (run, first) = start_single_module(".".to_string(), "/tmp/stage".to_string());
    assert_eq!(expect_load_module(&first), "./buf.yaml".to_string());

    let (run, cmd) = step_single(run, Event::ModuleLoaded { outcome: Ok(manifest(&["x", "y"])) });
    assert_eq!(expect_export(cmd.as_ref().unwrap()), ("x".to_string(), "/tmp/stage".to_string()));

    let (run, cmd) = step_single(run, Event::DepExported { failure: None });
    assert_eq!(expect_export(cmd.as_ref().unwrap()), ("y".to_string(), "/tmp/stage".to_string()));

    let (run, cmd) = step_single(run, Event::DepExported { failure: None });
    assert_eq!(expect_ls_files(cmd.as_ref().unwrap()), ".".to_string());

    let (run, cmd) = step_single(
        run,
        Event::ProtosListed { outcome: Ok("a.proto\nb.proto\n".to_string()) },
    );
    let (protos, dirs) = expect_compile(cmd.as_ref().unwrap());
    assert_eq!(protos, vec!["a.proto".to_string(), "b.proto".to_string()]);
    assert_eq!(dirs, vec![".".to_string(), "/tmp/stage".to_string()]);

    let (run, cmd) = step_single(run, Event::CompileFinished { failure: None });
    assert_eq!(expect_remove(cmd.as_ref().unwrap()), "/tmp/stage".to_string());

    let (run, cmd) = step_single(run, Event::Removed);
    assert!(cmd.is_none());
    assert!(single_result(run).is_ok());
}

#[test]
fn single_run_empty_deps_exports_nothing() {
    let (run, _first) = start_single_module("proto".to_string(), "stage".to_string());
    let (_run, cmd) = step_single(run, Event::ModuleLoaded { outcome: Ok(BufYaml::from_deps(None)) });
    // straight to discovery: the export operation is never invoked
    assert_eq!(expect_ls_files(cmd.as_ref().unwrap()), "proto".to_string());
}

#[test]
fn single_run_export_failure_aborts_remaining_exports() {
    let (run, _first) = start_single_module(".".to_string(), "stage".to_string());
    let (run, cmd) = step_single(run, Event::ModuleLoaded { outcome: Ok(manifest(&["x", "y"])) });
    assert_eq!(expect_export(cmd.as_ref().unwrap()).0, "x".to_string());

    let failure = TonicBufBuildError::new_without_cause("failed to execute `buf export x -o stage'");
    let (run, cmd) = step_single(run, Event::DepExported { failure: Some(failure) });
    // fail-fast: no export of "y"; the only remaining command is cleanup
    assert_eq!(expect_remove(cmd.as_ref().unwrap()), "stage".to_string());

    let (run, cmd) = step_single(run, Event::Removed);
    assert!(cmd.is_none());
    let err = single_result(run).unwrap_err();
    assert_eq!(err.message, "failed to execute `buf export x -o stage'".to_string());
    assert_eq!(err.cause, None);
}

#[test]
fn single_run_manifest_load_failure() {
    let (run, _first) = start_single_module(".".to_string(), "stage".to_string());
    let failure = TonicBufBuildError::new("failed to read \"./buf.yaml\"", "no such file");
    let (run, cmd) = step_single(run, Event::ModuleLoaded { outcome: Err(failure) });
    assert_eq!(expect_remove(cmd.as_ref().unwrap()), "stage".to_string());
    let (run, _cmd) = step_single(run, Event::Removed);
    let err = single_result(run).unwrap_err();
    assert_eq!(err.message, "failed to read \"./buf.yaml\"".to_string());
    assert_eq!(err.cause, Some("no such file".to_string()));
}

#[test]
fn single_run_compile_failure_is_wrapped() {
    let (run, _first) = start_single_module(".".to_string(), "stage".to_string());
    let (run, _cmd) = step_single(run, Event::ModuleLoaded { outcome: Ok(BufYaml::from_deps(None)) });
    let (run, _cmd) = step_single(run, Event::ProtosListed { outcome: Ok("a.proto\n".to_string()) });
    let (run, cmd) = step_single(run, Event::CompileFinished { failure: Some("boom".to_string()) });
    assert_eq!(expect_remove(cmd.as_ref().unwrap()), "stage".to_string());
    let (run, _cmd) = step_single(run, Event::Removed);
    let err = single_result(run).unwrap_err();
    assert_eq!(err.message, "error running tonic build".to_string());
    assert_eq!(err.cause, Some("boom".to_string()));
}

// Cleanup is attempted on the success path too, and the run reports success
// whatever became of the removal attempt: the event deliberately carries no
// removal result, so a persisting directory cannot change the outcome.
#[test]
fn single_run_reports_success_despite_persisting_staging_dir() {
    let (run, _first) = start_single_module(".".to_string(), "stage".to_string());
    let (run, _cmd) = step_single(run, Event::ModuleLoaded { outcome: Ok(BufYaml::from_deps(None)) });
    let (run, _cmd) = step_single(run, Event::ProtosListed { outcome: Ok("".to_string()) });
    let (run, cmd) = step_single(run, Event::CompileFinished { failure: None });
    // the cleanup is commanded unconditionally ...
    assert_eq!(expect_remove(cmd.as_ref().unwrap()), "stage".to_string());
    // ... and the outcome is success no matter how the removal went
    let (run, _cmd) = step_single(run, Event::Removed);
    assert!(single_result(run).is_ok());
}

#[test]
fn member_dirs_are_joined_in_order() {
    let w = BufWorkYaml::from_directories(Some(vec!["a".to_string(), "b".to_string()]));
    let dirs = export_all_from_workspace(&w, "ws");
    assert_eq!(dirs, vec!["ws/a".to_string(), "ws/b".to_string()]);
}

#[test]
fn workspace_run_full_success() {
    let (run, first) = start_workspace("ws".to_string(), "stage".to_string());
    match &first {
        Command::LoadWorkspace { path } => assert_eq!(path, "ws/buf.work.yaml"),
        _ => panic!("expected the workspace manifest load"),
    }

    let members = BufWorkYaml::from_directories(Some(vec!["a".to_string(), "b".to_string()]));
    let (run, cmd) = step_workspace(run, Event::WorkspaceLoaded { outcome: Ok(members) });
    assert_eq!(expect_load_module(cmd.as_ref().unwrap()), "ws/a/buf.yaml".to_string());

    let (run, cmd) = step_workspace(run, Event::ModuleLoaded { outcome: Ok(manifest(&["d1"])) });
    assert_eq!(expect_export(cmd.as_ref().unwrap()), ("d1".to_string(), "stage".to_string()));

    let (run, cmd) = step_workspace(run, Event::DepExported { failure: None });
    assert_eq!(expect_load_module(cmd.as_ref().unwrap()), "ws/b/buf.yaml".to_string());

    let (run, cmd) = step_workspace(run, Event::ModuleLoaded { outcome: Ok(manifest(&["d2"])) });
    assert_eq!(expect_export(cmd.as_ref().unwrap()), ("d2".to_string(), "stage".to_string()));

    let (run, cmd) = step_workspace(run, Event::DepExported { failure: None });
    // discovery is performed once, scoped to the workspace as a whole
    assert_eq!(expect_ls_files(cmd.as_ref().unwrap()), "ws".to_string());

    let (run, cmd) = step_workspace(run, Event::ProtosListed { outcome: Ok("p.proto\n".to_string()) });
    let (protos, dirs) = expect_compile(cmd.as_ref().unwrap());
    assert_eq!(protos, vec!["p.proto".to_string()]);
    // staging first, then the members, in manifest-declared order
    assert_eq!(dirs, vec!["stage".to_string(), "ws/a".to_string(), "ws/b".to_string()]);

    let (run, cmd) = step_workspace(run, Event::CompileFinished { failure: None });
    assert_eq!(expect_remove(cmd.as_ref().unwrap()), "stage".to_string());
    let (run, cmd) = step_workspace(run, Event::Removed);
    assert!(cmd.is_none());
    assert!(workspace_result(run).is_ok());
}

// Members [a, b] where b's export fails: a's export has already been
// commanded (and its output stays in the staging directory — the failing step
// commands nothing but the staging cleanup, no rollback).
#[test]
fn workspace_member_failure_keeps_earlier_exports() {
    let (run, _first) = start_workspace("ws".to_string(), "stage".to_string());
    let members = BufWorkYaml::from_directories(Some(vec!["a".to_string(), "b".to_string()]));
    let (run, cmd) = step_workspace(run, Event::WorkspaceLoaded { outcome: Ok(members) });
    assert_eq!(expect_load_module(cmd.as_ref().unwrap()), "ws/a/buf.yaml".to_string());

    // member a: its export is commanded and succeeds
    let (run, cmd) = step_workspace(run, Event::ModuleLoaded { outcome: Ok(manifest(&["da"])) });
    assert_eq!(expect_export(cmd.as_ref().unwrap()).0, "da".to_string());
    let (run, cmd) = step_workspace(run, Event::DepExported { failure: None });
    assert_eq!(expect_load_module(cmd.as_ref().unwrap()), "ws/b/buf.yaml".to_string());

    // member b: its export fails
    let (run, cmd) = step_workspace(run, Event::ModuleLoaded { outcome: Ok(manifest(&["db"])) });
    assert_eq!(expect_export(cmd.as_ref().unwrap()).0, "db".to_string());
    let failure = TonicBufBuildError::new_without_cause("failed to execute `buf export db -o stage'");
    let (run, cmd) = step_workspace(run, Event::DepExported { failure: Some(failure) });
    // fail-fast across members: the only command after the failure is the
    // staging cleanup, never another load, export, or a rollback
    assert_eq!(expect_remove(cmd.as_ref().unwrap()), "stage".to_string());
    let (run, cmd) = step_workspace(run, Event::Removed);
    assert!(cmd.is_none());
    let err = workspace_result(run).unwrap_err();
    assert_eq!(err.message, "failed to execute `buf export db -o stage'".to_string());
}

#[test]
fn workspace_with_no_members_goes_straight_to_discovery() {
    let (run, _first) = start_workspace("ws".to_string(), "stage".to_string());
    let members = BufWorkYaml::from_directories(None);
    let (_run, cmd) = step_workspace(run, Event::WorkspaceLoaded { outcome: Ok(members) });
    assert_eq!(expect_ls_files(cmd.as_ref().unwrap()), "ws".to_string());
}

#[test]
fn workspace_member_with_no_deps_is_skipped_past() {
    let (run, _first) = start_workspace("ws".to_string(), "stage".to_string());
    let members = BufWorkYaml::from_directories(Some(vec!["a".to_string(), "b".to_string()]));
    let (run, _cmd) = step_workspace(run, Event::WorkspaceLoaded { outcome: Ok(members) });
    // member a declares nothing: no export, straight to member b
    let (run, cmd) = step_workspace(run, Event::ModuleLoaded { outcome: Ok(BufYaml::from_deps(None)) });
    assert_eq!(expect_load_module(cmd.as_ref().unwrap()), "ws/b/buf.yaml".to_string());
    let (_run, cmd) = step_workspace(run, Event::ModuleLoaded { outcome: Ok(BufYaml::from_deps(None)) });
    assert_eq!(expect_ls_files(cmd.as_ref().unwrap()), "ws".to_string());
}
