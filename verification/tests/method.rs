use klaver_wintertc::fetch::method::{Method, MethodError};

fn parse(method: &str) -> Result<String, MethodError> {
    Method::from_text(method).map(|m| m.as_str().to_string())
}

#[test]
fn normalizes_well_known_methods_case_insensitively() {
    assert_eq!(parse("get").unwrap(), "GET");
    assert_eq!(parse("Get").unwrap(), "GET");
    assert_eq!(parse("post").unwrap(), "POST");
    assert_eq!(parse("Delete").unwrap(), "DELETE");
}

#[test]
fn preserves_case_of_other_valid_tokens() {
    assert_eq!(parse("PROPFIND").unwrap(), "PROPFIND");
    assert_eq!(parse("PATCH").unwrap(), "PATCH");
    assert_eq!(parse("MySuperMethod").unwrap(), "MySuperMethod");
}

#[test]
fn rejects_forbidden_methods_regardless_of_case() {
    assert!(parse("CONNECT").is_err());
    assert!(parse("connect").is_err());
    assert!(parse("TRACE").is_err());
    assert!(parse("Track").is_err());
}

#[test]
fn rejects_invalid_tokens() {
    assert!(parse("GET /foo").is_err());
    assert!(parse("").is_err());
    assert!(parse("get\r\nX-Injected: 1").is_err());
}

#[test]
fn method_errors_are_told_apart() {
    assert_eq!(parse("trace"), Err(MethodError::Forbidden));
    assert_eq!(parse("GÉT"), Err(MethodError::InvalidToken));
    assert_eq!(parse("a b"), Err(MethodError::InvalidToken));
    assert_eq!(parse("patch").unwrap(), "patch");
    assert_eq!(parse("options").unwrap(), "OPTIONS");
    assert_eq!(parse("hEaD").unwrap(), "HEAD");
    assert_eq!(parse("put").unwrap(), "PUT");
    assert_eq!(parse("!#$%&'*+-.^_`|~09az").unwrap(), "!#$%&'*+-.^_`|~09az");
}

#[test]
fn default_method_and_body_rule() {
    assert_eq!(Method::get().as_str(), "GET");
    assert!(Method::from_text("head").unwrap().forbids_body());
    assert!(!Method::from_text("post").unwrap().forbids_body());
}
