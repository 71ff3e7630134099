use klaver_wintertc::dom_exception::{code_of_name, legacy_constants, DOMException};

fn s(x: &str) -> String {
    x.to_string()
}

#[test]
fn name_message_and_to_string() {
    let err = DOMException::new(Some(s("bad state")), Some(s("InvalidStateError")));
    assert_eq!(err.name(), "InvalidStateError");
    assert_eq!(err.message(), "bad state");
    assert_eq!(err.to_string(), "InvalidStateError: bad state");
}

#[test]
fn default_name_is_error() {
    let err = DOMException::new(Some(s("oops")), None);
    assert_eq!(err.name(), "Error");
}

#[test]
fn code_is_derived_from_name() {
    assert_eq!(DOMException::new(Some(s("missing")), Some(s("NotFoundError"))).code(), 8);
    assert_eq!(DOMException::new(Some(s("mystery")), Some(s("SomethingElseError"))).code(), 0);
    assert_eq!(DOMException::new(Some(s("mystery")), None).code(), 0);
}

#[test]
fn legacy_constants_exist_on_constructor_and_instances() {
    let consts = legacy_constants();
    let find = |n: &str| consts.iter().find(|(k, _)| k == n).map(|(_, c)| *c);
    assert_eq!(find("NOT_FOUND_ERR"), Some(8));
    assert_eq!(find("INVALID_STATE_ERR"), Some(11));
    assert_eq!(find("DOMSTRING_SIZE_ERR"), Some(2));
    assert_eq!(find("NO_DATA_ALLOWED_ERR"), Some(6));
    assert_eq!(find("VALIDATION_ERR"), Some(16));
    assert_eq!(consts.len(), 25);
}

#[test]
fn dom_exception_to_string_without_message_is_the_name() {
    let err = DOMException::new(None, Some(s("AbortError")));
    assert_eq!(err.to_string(), "AbortError");
    assert_eq!(err.message(), "");
    assert_eq!(err.code(), 20);
}

#[test]
fn every_named_code_matches_its_constant() {
    let consts = legacy_constants();
    for (name, code) in [("IndexSizeError", 1), ("DataCloneError", 25), ("TimeoutError", 23), ("NetworkError", 19)] {
        assert_eq!(code_of_name(name), code);
        assert_eq!(consts[(code - 1) as usize].1, code);
    }
    assert_eq!(consts[0].0, "INDEX_SIZE_ERR");
    assert_eq!(consts[24].0, "DATA_CLONE_ERR");
}

#[test]
fn dom_exception_structured_clone_round_trips() {
    let err = DOMException::new(Some(s("bad")), Some(s("DataCloneError")));
    let list = err.to_transfer(s("at x"));
    assert_eq!(list, vec![s("DataCloneError"), s("bad"), s("at x")]);
    let (back, stack) = DOMException::from_transfer(list).unwrap();
    assert_eq!(back.name(), "DataCloneError");
    assert_eq!(back.message(), "bad");
    assert_eq!(stack, "at x");
    assert!(DOMException::from_transfer(vec![s("a"), s("b")]).is_err());
}
