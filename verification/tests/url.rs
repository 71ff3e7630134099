use klaver_wintertc::fetch::url::split_host_port;

#[test]
fn host_port_splitting() {
    assert_eq!(split_host_port("example.com"), ("example.com", None));
    assert_eq!(
        split_host_port("example.com:8080"),
        ("example.com", Some("8080"))
    );
    assert_eq!(split_host_port("[::1]"), ("[::1]", None));
    assert_eq!(split_host_port("[::1]:8080"), ("[::1]", Some("8080")));
}

#[test]
fn host_port_non_numeric_port_is_part_of_host() {
    assert_eq!(split_host_port("example.com:http"), ("example.com:http", None));
    assert_eq!(split_host_port("example.com:"), ("example.com:", None));
    assert_eq!(split_host_port("example.com:80a"), ("example.com:80a", None));
}

#[test]
fn host_port_uses_last_colon() {
    assert_eq!(split_host_port("a:b:443"), ("a:b", Some("443")));
    assert_eq!(split_host_port(":0"), ("", Some("0")));
}

#[test]
fn host_port_bracketed_edge_cases() {
    assert_eq!(split_host_port("[::1]:"), ("[::1]", None));
    assert_eq!(split_host_port("[::1]x9"), ("[::1]", None));
    assert_eq!(split_host_port("[::1"), ("[::1", None));
    assert_eq!(split_host_port("[a]]:1"), ("[a]", None));
    assert_eq!(split_host_port(""), ("", None));
}

use klaver_wintertc::fetch::url::{parse_u16, port_text, StringOrUrl, Url, UrlError};
use klaver_wintertc::fetch::url_search_params::URLSearchParams;

#[test]
fn url_parses_and_normalises() {
    let u = Url::from_str("HTTP://Example.COM/a/../b?x=1#frag").unwrap();
    assert_eq!(u.get_href(), "http://example.com/b?x=1#frag");
    assert_eq!(u.get_protocol(), "http:");
    assert_eq!(u.get_hostname(), "example.com");
    assert_eq!(u.get_host(), "example.com");
    assert_eq!(u.get_port(), "");
    assert_eq!(u.get_pathname(), "/b");
    assert_eq!(u.get_search(), "?x=1");
    assert_eq!(u.get_hash(), "#frag");
    assert_eq!(u.get_origin(), "http://example.com");
}

#[test]
fn url_parse_rejects_relative_text() {
    assert_eq!(Url::from_str("/only/a/path").err(), Some(UrlError::Invalid));
    assert!(!Url::can_parse(StringOrUrl::String("/only/a/path"), None));
    assert!(Url::can_parse(
        StringOrUrl::String("/only/a/path"),
        Some(StringOrUrl::String("https://example.com/base/"))
    ));
    assert!(!Url::can_parse(StringOrUrl::String("x"), Some(StringOrUrl::String("not a url"))));
    let base = Url::from_str("https://example.com/").unwrap();
    assert!(Url::can_parse(StringOrUrl::String("a/b"), Some(StringOrUrl::Url(&base))));
}

#[test]
fn url_joins_against_base() {
    let base = Url::from_str("https://example.com/dir/page").unwrap();
    let u = Url::new(StringOrUrl::String("other?q=2"), Some(StringOrUrl::Url(&base))).unwrap();
    assert_eq!(u.get_href(), "https://example.com/dir/other?q=2");
    let v = Url::new(
        StringOrUrl::String("/root"),
        Some(StringOrUrl::String("https://example.com/dir/page")),
    )
    .unwrap();
    assert_eq!(v.get_href(), "https://example.com/root");
    assert_eq!(
        Url::new(StringOrUrl::String("x"), Some(StringOrUrl::String("nope"))).err(),
        Some(UrlError::Invalid)
    );
    let copy = Url::new(StringOrUrl::Url(&u), None).unwrap();
    assert_eq!(copy.to_string(), "https://example.com/dir/other?q=2");
    assert_eq!(copy.to_json(), copy.to_stdstring());
    let from_text = Url::new(StringOrUrl::String("HTTP://A.example"), None).unwrap();
    assert_eq!(from_text.get_href(), "http://a.example/");
    assert_eq!(StringOrUrl::Url(&u).as_str(), "https://example.com/dir/other?q=2");
    assert_eq!(
        StringOrUrl::String("https://b.example").to_url().unwrap().get_href(),
        "https://b.example/"
    );
}

#[test]
fn url_credentials_and_port() {
    let mut u = Url::from_str("https://user:pw@example.com:8443/p").unwrap();
    assert_eq!(u.get_username(), "user");
    assert_eq!(u.get_password(), "pw");
    assert_eq!(u.get_port(), "8443");
    assert_eq!(u.get_host(), "example.com:8443");
    assert_eq!(u.get_origin(), "https://example.com:8443");
    u.set_password("");
    assert_eq!(u.get_password(), "");
    assert_eq!(u.get_href(), "https://user@example.com:8443/p");
    u.set_username("bob");
    assert_eq!(u.get_username(), "bob");
}

#[test]
fn url_default_port_is_hidden() {
    let u = Url::from_str("https://example.com:443/").unwrap();
    assert_eq!(u.get_port(), "");
    assert_eq!(u.get_host(), "example.com");
}

#[test]
fn url_set_port_parsing() {
    let mut u = Url::from_str("http://example.com/").unwrap();
    u.set_port("8080");
    assert_eq!(u.get_port(), "8080");
    u.set_port("+81");
    assert_eq!(u.get_port(), "81");
    u.set_port("abc");
    assert_eq!(u.get_port(), "81");
    u.set_port("65536");
    assert_eq!(u.get_port(), "81");
    u.set_port("");
    assert_eq!(u.get_port(), "");
    assert_eq!(u.get_href(), "http://example.com/");
}

#[test]
fn url_set_host_with_port() {
    let mut u = Url::from_str("http://example.com/x").unwrap();
    u.set_host("other.org:9000");
    assert_eq!(u.get_hostname(), "other.org");
    assert_eq!(u.get_port(), "9000");
    assert_eq!(u.get_host(), "other.org:9000");
    u.set_hostname("third.net");
    assert_eq!(u.get_host(), "third.net:9000");
}

#[test]
fn url_search_and_hash_setters() {
    let mut u = Url::from_str("http://example.com/x").unwrap();
    u.set_search("?a=1&b=2");
    assert_eq!(u.get_search(), "?a=1&b=2");
    assert_eq!(u.search_params().get("b"), Some("2".to_string()));
    u.set_search("");
    assert_eq!(u.get_search(), "");
    assert_eq!(u.search_params().size(), 0);
    u.set_hash("#top");
    assert_eq!(u.get_hash(), "#top");
    u.set_hash("");
    assert_eq!(u.get_hash(), "");
    assert_eq!(u.get_href(), "http://example.com/x");
}

#[test]
fn url_search_params_write_back() {
    let mut u = Url::from_str("http://example.com/?a=1").unwrap();
    let mut p = URLSearchParams::from_pairs(u.search_params().entries());
    p.append("c".to_string(), "x y".to_string());
    u.set_search_params(p);
    assert_eq!(u.get_search(), "?a=1&c=x%20y");
    assert_eq!(u.search_params().get("c"), Some("x y".to_string()));
}

#[test]
fn url_protocol_and_path_setters() {
    let mut u = Url::from_str("http://example.com/a").unwrap();
    u.set_protocol("https::");
    assert_eq!(u.get_protocol(), "https:");
    u.set_pathname("/b/c");
    assert_eq!(u.get_pathname(), "/b/c");
    assert!(u.set_href("not a url").is_err());
    assert_eq!(u.get_href(), "https://example.com/b/c");
    u.set_href("ftp://files.example/").unwrap();
    assert_eq!(u.get_protocol(), "ftp:");
}

#[test]
fn url_origin_of_opaque_url_is_null() {
    let u = Url::from_str("mailto:someone@example.com").unwrap();
    assert_eq!(u.get_origin(), "null");
    assert_eq!(u.get_hostname(), "");
}

#[test]
fn url_duplicate_is_independent() {
    let mut a = Url::from_str("http://example.com/?k=v").unwrap();
    let b = a.duplicate();
    a.set_search("");
    assert_eq!(b.get_search(), "?k=v");
}

#[test]
fn u16_text_parsing() {
    assert_eq!(parse_u16("0"), Some(0));
    assert_eq!(parse_u16("+80"), Some(80));
    assert_eq!(parse_u16("65535"), Some(65535));
    assert_eq!(parse_u16("65536"), None);
    assert_eq!(parse_u16(""), None);
    assert_eq!(parse_u16("+"), None);
    assert_eq!(parse_u16("-1"), None);
    assert_eq!(parse_u16("12a"), None);
    assert_eq!(port_text(0), "0");
    assert_eq!(port_text(8080), "8080");
}

#[test]
fn url_query_written_back_keeps_params() {
    let mut u = Url::from_str("http://example.com/?a=1").unwrap();
    u.set_query_from_search_params("z=9");
    assert_eq!(u.get_search(), "?z=9");
    assert_eq!(u.search_params().get("a"), Some("1".to_string()));
    u.set_query_from_search_params("");
    assert_eq!(u.get_href(), "http://example.com/");
}

#[test]
fn host_port_bracketed_port_must_be_digits() {
    assert_eq!(split_host_port("[::1]:abc"), ("[::1]", None));
    assert_eq!(split_host_port("[::1]:8a"), ("[::1]", None));
    assert_eq!(split_host_port("[::1]:443"), ("[::1]", Some("443")));
}
