use klaver_wintertc::fetch::headers::Headers;

fn s(x: &str) -> String {
    x.to_string()
}

#[test]
fn constructed_from_array_of_pairs() {
    let headers = Headers::from_pairs(vec![(s("Content-Type"), s("text/plain")), (s("X-Foo"), s("bar"))]);
    assert_eq!(headers.get("content-type"), Some(s("text/plain")));
    assert_eq!(headers.get("x-foo"), Some(s("bar")));
}

#[test]
fn constructed_from_record_object() {
    let headers = Headers::from_pairs(vec![(s("Content-Type"), s("text/plain"))]);
    assert_eq!(headers.get("content-type"), Some(s("text/plain")));
}

#[test]
fn constructed_from_another_headers_copies_independently() {
    let a = Headers::from_pairs(vec![(s("X-Foo"), s("1"))]);
    let mut b = a.duplicate();
    b.set("X-Foo", s("2"));
    assert_eq!(a.get("x-foo"), Some(s("1")));
    assert_eq!(b.get("x-foo"), Some(s("2")));
}

#[test]
fn header_names_are_case_insensitive() {
    let mut headers = Headers::new();
    headers.set("Content-Type", s("text/plain"));
    assert!(headers.has("content-type"));
    assert_eq!(headers.get("CONTENT-TYPE"), Some(s("text/plain")));
}

#[test]
fn append_combines_values_with_comma_space_on_get() {
    let mut headers = Headers::new();
    headers.append("X-Foo", s("a"));
    headers.append("X-Foo", s("b"));
    assert_eq!(headers.get("X-Foo"), Some(s("a, b")));
}

#[test]
fn set_replaces_all_previously_appended_values() {
    let mut headers = Headers::new();
    headers.append("X-Foo", s("a"));
    headers.append("X-Foo", s("b"));
    headers.set("X-Foo", s("c"));
    assert_eq!(headers.get("X-Foo"), Some(s("c")));
}

#[test]
fn delete_removes_the_header() {
    let mut headers = Headers::from_pairs(vec![(s("X-Foo"), s("1"))]);
    assert!(headers.has("x-foo"));
    headers.delete("X-Foo");
    assert!(!headers.has("x-foo"));
    assert_eq!(headers.get("x-foo"), None);
}

#[test]
fn iteration_is_sorted_by_name_with_combined_values() {
    let mut headers = Headers::new();
    headers.append("b", s("2"));
    headers.append("a", s("1"));
    headers.append("a", s("1b"));

    let entries: Vec<String> = headers.entries().into_iter().map(|(k, v)| format!("{k}={v}")).collect();
    assert_eq!(entries.join(","), "a=1, 1b,b=2");
    assert_eq!(headers.keys().join(","), "a,b");
    assert_eq!(headers.values().join(","), "1, 1b,2");
}

#[test]
fn for_each_calls_back_with_value_then_key_in_sorted_order() {
    let headers = Headers::from_pairs(vec![(s("b"), s("2")), (s("a"), s("1"))]);
    let mut seen = Vec::new();
    for (key, value) in headers.entries() {
        seen.push(format!("{key}={value}"));
    }
    assert_eq!(seen.join(","), "a=1,b=2");
}

#[test]
fn headers_empty_has_no_entries() {
    let headers = Headers::new();
    assert!(headers.entries().is_empty());
    assert_eq!(headers.get("x"), None);
    assert!(!headers.has("x"));
}

#[test]
fn headers_delete_of_missing_name_changes_nothing() {
    let mut headers = Headers::from_pairs(vec![(s("A"), s("1"))]);
    headers.delete("b");
    assert_eq!(headers.entries(), vec![(s("a"), s("1"))]);
}

#[test]
fn headers_sorting_is_by_code_point() {
    let mut headers = Headers::new();
    headers.append("x-b", s("1"));
    headers.append("x-a", s("2"));
    headers.append("x", s("3"));
    headers.append("accept", s("4"));
    assert_eq!(headers.keys(), vec![s("accept"), s("x"), s("x-a"), s("x-b")]);
}

#[test]
fn headers_from_native_skips_unnamed_and_non_visible_values() {
    let headers = Headers::from_native(vec![
        (Some(s("Content-Type")), b"text/html".to_vec()),
        (None, b"ignored".to_vec()),
        (Some(s("x-bin")), vec![0x80, 0x41]),
        (Some(s("x-tab")), b"a\tb".to_vec()),
        (Some(s("content-type")), b"charset=utf-8".to_vec()),
    ]);
    assert_eq!(headers.get("content-type"), Some(s("text/html, charset=utf-8")));
    assert!(!headers.has("x-bin"));
    assert_eq!(headers.get("x-tab"), Some(s("a\tb")));
}
