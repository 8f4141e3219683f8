use pve_launcher::api::ApiError;

#[test]
fn every_failure_has_its_line() {
    let text = |s: &str| s.to_string();
    assert_eq!(ApiError::Client(text("refused")).message(), "HTTP client error: refused");
    assert_eq!(ApiError::Auth(text("401")).message(), "Authentication failed: 401");
    assert_eq!(ApiError::Parse(text("eof")).message(), "JSON parse error: eof");
    assert_eq!(
        ApiError::Api { status: 500, message: text("{\"errors\":1}") }.message(),
        "API error (500): {\"errors\":1}"
    );
    assert_eq!(ApiError::VMNotFound(text("100")).message(), "VM not found: 100");
    assert_eq!(ApiError::TaskFailed(text("exit 1")).message(), "Task failed: exit 1");
    assert_eq!(ApiError::Spice(text("no viewer")).message(), "SPICE error: no viewer");
    assert_eq!(ApiError::Io(text("disk full")).message(), "IO error: disk full");
}

#[test]
fn failures_are_copied_whole() {
    let error = ApiError::Api { status: 403, message: "Permission check failed".to_string() };
    assert_eq!(error.clone(), error);
}
