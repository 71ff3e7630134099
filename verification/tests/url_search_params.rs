use klaver_wintertc::fetch::url_search_params::URLSearchParams;

fn s(x: &str) -> String {
    x.to_string()
}

fn pairs(p: &URLSearchParams) -> Vec<(String, String)> {
    p.entries()
}

#[test]
fn search_params_parse_keeps_interleaved_order() {
    let p = URLSearchParams::from_str("a=1&b=2&a=3");
    assert_eq!(
        pairs(&p),
        vec![(s("a"), s("1")), (s("b"), s("2")), (s("a"), s("3"))]
    );
    assert_eq!(p.size(), 3);
    assert_eq!(p.keys(), vec![s("a"), s("b"), s("a")]);
    assert_eq!(p.values(), vec![s("1"), s("2"), s("3")]);
}

#[test]
fn search_params_leading_question_mark_is_dropped_once() {
    let p = URLSearchParams::from_str("?x=1");
    assert_eq!(pairs(&p), vec![(s("x"), s("1"))]);
    let q = URLSearchParams::from_str("??x=1");
    assert_eq!(pairs(&q), vec![(s("?x"), s("1"))]);
}

#[test]
fn search_params_decodes_plus_and_percent_escapes() {
    let p = URLSearchParams::from_str("q=hello+world&e=%C3%A9&k");
    assert_eq!(p.get("q"), Some(s("hello world")));
    assert_eq!(p.get("e"), Some(s("é")));
    assert_eq!(p.get("k"), Some(s("")));
}

#[test]
fn search_params_get_has_and_get_all() {
    let p = URLSearchParams::from_str("a=1&b=2&a=3");
    assert_eq!(p.get("a"), Some(s("1")));
    assert_eq!(p.get("c"), None);
    assert!(p.has("b"));
    assert!(!p.has("B"));
    assert_eq!(p.get_all("a"), vec![s("1"), s("3")]);
    assert!(p.get_all("zz").is_empty());
}

#[test]
fn search_params_append_adds_at_the_end() {
    let mut p = URLSearchParams::new();
    assert_eq!(p.size(), 0);
    p.append(s("a"), s("1"));
    p.append(s("a"), s("2"));
    assert_eq!(p.get("a"), Some(s("1")));
    assert_eq!(p.get_all("a"), vec![s("1"), s("2")]);
}

#[test]
fn search_params_set_collapses_duplicates_keeping_first_position() {
    let mut p = URLSearchParams::from_str("a=1&b=2&a=3&c=4");
    p.set(s("a"), s("9"));
    assert_eq!(
        pairs(&p),
        vec![(s("a"), s("9")), (s("b"), s("2")), (s("c"), s("4"))]
    );
    p.set(s("d"), s("5"));
    assert_eq!(p.get("d"), Some(s("5")));
    assert_eq!(p.keys(), vec![s("a"), s("b"), s("c"), s("d")]);
}

#[test]
fn search_params_delete_removes_every_pair_with_the_name() {
    let mut p = URLSearchParams::from_str("a=1&b=2&a=3");
    p.delete("a");
    assert_eq!(pairs(&p), vec![(s("b"), s("2"))]);
    assert!(!p.has("a"));
    p.delete("missing");
    assert_eq!(p.size(), 1);
}

#[test]
fn search_params_to_string_percent_encodes_both_sides() {
    let p = URLSearchParams::from_pairs(vec![
        (s("a b"), s("1&2")),
        (s("x"), s("é")),
        (s("safe"), s("-_.~")),
    ]);
    assert_eq!(p.to_string(), "a%20b=1%262&x=%C3%A9&safe=-_.~");
    assert_eq!(URLSearchParams::new().to_string(), "");
}

#[test]
fn search_params_from_record_like_pairs_keeps_given_order() {
    let p = URLSearchParams::from_pairs(vec![(s("k"), s("v")), (s("j"), s("w"))]);
    assert_eq!(p.to_string(), "k=v&j=w");
}

#[test]
fn search_params_from_optional_query() {
    assert_eq!(URLSearchParams::from_query(None).size(), 0);
    let p = URLSearchParams::from_query(Some("?k=v&k=w"));
    assert_eq!(p.get_all("k"), vec!["v".to_string(), "w".to_string()]);
    let mut q = URLSearchParams::from_str("a=1");
    q.reset_from_query(Some("b=2"));
    assert_eq!(q.to_string(), "b=2");
    q.reset_from_query(None);
    assert_eq!(q.size(), 0);
}
