use tonic_buf_build::error::TonicBufBuildError;
use tonic_buf_build::TonicBufConfig;
use tonic_buf_build::effective_buf_dir;

#[test]
fn error_with_cause() {
    let e = TonicBufBuildError::new("failed to read buf.yaml", "no such file");
    assert_eq!(e.message, "failed to read buf.yaml".to_string());
    assert_eq!(e.cause, Some("no such file".to_string()));
    assert_eq!(e.describe(), "failed to read buf.yaml: no such file".to_string());
}

#[test]
fn error_without_cause() {
    let e = TonicBufBuildError::new_without_cause("buf returned status code 1");
    assert_eq!(e.message, "buf returned status code 1".to_string());
    assert_eq!(e.cause, None);
    assert_eq!(e.describe(), "buf returned status code 1".to_string());
}

#[test]
fn default_config_has_no_buf_dir() {
    let c = TonicBufConfig::default();
    assert!(c.buf_dir.is_none());
    assert_eq!(effective_buf_dir(&c), ".".to_string());
}

#[test]
fn configured_buf_dir_is_used() {
    let c = TonicBufConfig { buf_dir: Some("proto".to_string()) };
    assert_eq!(effective_buf_dir(&c), "proto".to_string());
}
