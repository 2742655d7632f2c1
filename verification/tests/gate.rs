use mysqlclient_build::gate::{
    gate_from_capture, macro_allowed, mysqlclient_version, requirement_from_literal, GateDecision,
    GateError, MacroCapture,
};

fn s(text: &str) -> String {
    text.to_string()
}

#[test]
fn gate_retains_when_requirement_is_met() {
    let r = mysqlclient_version("8.0.31", Some("\">=8.0.0, <9.0.0\""));
    assert_eq!(r, Ok(GateDecision::Retain));
}

#[test]
fn gate_discards_when_requirement_is_not_met() {
    let r = mysqlclient_version("8.0.31", Some("\">=9.0.0\""));
    assert_eq!(r, Ok(GateDecision::Discard));
}

#[test]
fn gate_aborts_on_unparseable_requirement() {
    let r = mysqlclient_version("8.0.31", Some("\"not a version\""));
    assert_eq!(r, Err(GateError::MalformedUsage));
}

#[test]
fn gate_aborts_on_unparseable_version() {
    let r = mysqlclient_version("eight dot oh", Some("\">=8.0.0\""));
    assert_eq!(r, Err(GateError::UnparseableVersion));
}

#[test]
fn gate_aborts_without_literal_argument() {
    assert_eq!(mysqlclient_version("8.0.31", None), Err(GateError::MalformedUsage));
}

#[test]
fn gate_aborts_on_too_short_literal() {
    assert_eq!(mysqlclient_version("8.0.31", Some("\"")), Err(GateError::MalformedUsage));
}

#[test]
fn requirement_literal_is_unquoted() {
    assert_eq!(requirement_from_literal(Some("\">=1.2.3\"")), Ok(s(">=1.2.3")));
    assert_eq!(requirement_from_literal(Some("\"\"")), Ok(s("")));
    assert_eq!(requirement_from_literal(None), Err(GateError::MalformedUsage));
    assert_eq!(requirement_from_literal(Some("x")), Err(GateError::MalformedUsage));
}

#[test]
fn prerelease_version_and_exact_requirement() {
    assert_eq!(mysqlclient_version("8.0.31", Some("\"=8.0.31\"")), Ok(GateDecision::Retain));
    assert_eq!(mysqlclient_version("8.0.31-rc1", Some("\"=8.0.31\"")), Ok(GateDecision::Discard));
}

#[test]
fn capture_starts_empty() {
    let capture = MacroCapture::new();
    assert!(capture.captured_value().is_none());
}

#[test]
fn capture_holds_final_observation() {
    let mut capture = MacroCapture::new();
    capture.observe("MYSQL_SERVER_VERSION", "8.0.11");
    capture.observe("MYSQL_SERVER_VERSION", "8.0.31");
    assert_eq!(capture.captured_value(), Some(&s("8.0.31")));
}

#[test]
fn capture_ignores_other_macros() {
    let mut capture = MacroCapture::new();
    capture.observe("MYSQL_PORT", "3306");
    assert!(capture.captured_value().is_none());
    capture.observe("MYSQL_SERVER_VERSION", "8.0.31");
    capture.observe("MYSQL_BASE_VERSION", "mysql-8.0");
    assert_eq!(capture.captured_value(), Some(&s("8.0.31")));
}

#[test]
fn macro_allow_list_has_one_entry() {
    assert!(macro_allowed("MYSQL_SERVER_VERSION"));
    assert!(!macro_allowed("MYSQL_BASE_VERSION"));
    assert!(!macro_allowed(""));
}

#[test]
fn gate_from_capture_needs_a_version() {
    let capture = MacroCapture::new();
    let r = gate_from_capture(&capture, Some("\">=8.0.0\""));
    assert_eq!(r, Err(GateError::MissingVersion));
}

#[test]
fn gate_from_capture_uses_captured_version() {
    let mut capture = MacroCapture::new();
    capture.observe("MYSQL_SERVER_VERSION", "8.0.31");
    assert_eq!(gate_from_capture(&capture, Some("\">=8.0.0, <9.0.0\"")), Ok(GateDecision::Retain));
    assert_eq!(gate_from_capture(&capture, Some("\">=9.0.0\"")), Ok(GateDecision::Discard));
}

#[test]
fn gate_error_messages() {
    assert_eq!(
        GateError::MalformedUsage.message(),
        s("Expected a valid semantic version requirement string as argument to \
           `mysqlclient_version`")
    );
    assert_eq!(
        GateError::UnparseableVersion.message(),
        s("`MYSQL_SERVER_VERSION` did not provide a parseable version")
    );
    assert_eq!(
        GateError::MissingVersion.message(),
        s("no value was captured for `MYSQL_SERVER_VERSION` during binding generation")
    );
}
