use klaver_wintertc::blob::{Blob, BlobInit};
use klaver_wintertc::fetch::body::{extract, Body, BodyError, BodyInit};
use klaver_wintertc::fetch::form_data::{FormDataEntryValue, FormData, FormDataValue};
use klaver_wintertc::fetch::headers::Headers;
use klaver_wintertc::fetch::method::MethodError;
use klaver_wintertc::fetch::request::{Request, RequestError, RequestInfo, RequestInit};
use klaver_wintertc::fetch::response::{Response, ResponseError, ResponseInit};
use klaver_wintertc::fetch::url_search_params::URLSearchParams;

fn s(x: &str) -> String {
    x.to_string()
}

fn url_req(url: &str, init: Option<RequestInit>) -> Result<Request, RequestError> {
    Request::new(RequestInfo::Url(s(url)), init)
}

fn init(method: Option<&str>, body: Option<BodyInit>, headers: Option<Headers>) -> Option<RequestInit> {
    Some(RequestInit { method: method.map(s), headers, body, signal: None })
}

fn status_init(status: Option<u16>, text: Option<&str>, headers: Option<Headers>) -> Option<ResponseInit> {
    Some(ResponseInit { status, status_text: text.map(s), headers })
}

#[test]
fn custom_status_text_is_preserved() {
    let res = Response::new(Some(BodyInit::Text(s("hi"))), status_init(Some(200), Some("Super OK"), None)).unwrap();
    assert_eq!(res.status_text(), "Super OK");
}

#[test]
fn status_text_defaults_to_the_canonical_reason_phrase() {
    let not_found = Response::new(None, status_init(Some(404), None, None)).unwrap();
    assert_eq!(not_found.status_text(), "Not Found");
    let teapot = Response::new(None, status_init(Some(418), None, None)).unwrap();
    assert_eq!(teapot.status_text(), "I'm a teapot");
}

#[test]
fn status_outside_200_to_599_throws() {
    assert!(matches!(Response::new(None, status_init(Some(199), None, None)), Err(ResponseError::StatusOutOfRange)));
    assert!(matches!(Response::new(None, status_init(Some(600), None, None)), Err(ResponseError::StatusOutOfRange)));
}

#[test]
fn defaults_to_status_200_and_empty_url() {
    let res = Response::new(Some(BodyInit::Text(s("hi"))), None).unwrap();
    assert_eq!(res.status(), 200);
    assert!(res.ok());
    assert_eq!(res.status_text(), "OK");
    assert_eq!(res.url(), "");
    assert!(!res.redirected());
}

#[test]
fn ok_is_false_for_error_statuses() {
    let res = Response::new(None, status_init(Some(404), None, None)).unwrap();
    assert!(!res.ok());
    assert_eq!(res.status(), 404);
}

#[test]
fn response_body_used_is_false_without_a_body_and_true_after_reading() {
    let mut without_body = Response::new(None, None).unwrap();
    assert!(!without_body.body_used());
    assert_eq!(without_body.body_mut().text().unwrap(), "");

    let mut with_body = Response::new(Some(BodyInit::Text(s("hi"))), None).unwrap();
    assert!(!with_body.body_used());
    with_body.body_mut().text().unwrap();
    assert!(with_body.body_used());
}

#[test]
fn response_reading_the_body_twice_throws() {
    let mut res = Response::new(Some(BodyInit::Text(s("hi"))), None).unwrap();
    res.body_mut().text().unwrap();
    assert_eq!(res.body_mut().text(), Err(BodyError::AlreadyUsed));
}

#[test]
fn response_clone_produces_an_independently_readable_body_and_headers() {
    let headers = Headers::from_pairs(vec![(s("X-Foo"), s("bar"))]);
    let mut res = Response::new(Some(BodyInit::Text(s("hello"))), status_init(None, None, Some(headers))).unwrap();
    let mut clone = res.clone_response().unwrap();
    clone.headers_mut().set("X-Foo", s("changed"));
    assert_eq!(res.headers().get("x-foo"), Some(s("bar")));
    assert_eq!(clone.body_mut().text().unwrap(), "hello");
    assert_eq!(res.body_mut().text().unwrap(), "hello");
}

#[test]
fn response_cloning_an_already_read_body_throws() {
    let mut res = Response::new(Some(BodyInit::Text(s("hi"))), None).unwrap();
    res.body_mut().text().unwrap();
    assert!(res.clone_response().is_err());
}

#[test]
fn response_from_native_uses_the_reason_phrase() {
    let res = Response::from_native(503, Headers::new(), b"down".to_vec(), s("https://x.test/"));
    assert_eq!(res.status_text(), "Service Unavailable");
    assert_eq!(res.url(), "https://x.test/");
    assert!(!res.ok());
    let odd = Response::from_native(299, Headers::new(), vec![], s(""));
    assert_eq!(odd.status_text(), "");
    assert!(odd.ok());
}

#[test]
fn response_body_sets_content_type_unless_given() {
    let res = Response::new(Some(BodyInit::Text(s("hi"))), None).unwrap();
    assert_eq!(res.headers().get("content-type"), Some(s("text/plain;charset=UTF-8")));
    let headers = Headers::from_pairs(vec![(s("Content-Type"), s("application/json"))]);
    let res = Response::new(Some(BodyInit::Text(s("{}"))), status_init(None, None, Some(headers))).unwrap();
    assert_eq!(res.headers().get("content-type"), Some(s("application/json")));
    let res = Response::new(Some(BodyInit::Bytes(vec![1])), None).unwrap();
    assert_eq!(res.headers().get("content-type"), None);
}

#[test]
fn invalid_url_throws() {
    assert!(matches!(url_req("not a url", None), Err(RequestError::InvalidUrl)));
}

#[test]
fn url_is_parsed_and_normalized() {
    let req = url_req("HTTPS://example.com:443/a", None).unwrap();
    assert_eq!(req.url(), "https://example.com/a");
}

#[test]
fn url_encoded_body_parses_as_form_data() {
    let params = URLSearchParams::from_pairs(vec![(s("a"), s("1")), (s("b"), s("2"))]);
    let mut req = url_req("https://example.com", init(Some("POST"), Some(BodyInit::Params(params)), None)).unwrap();
    assert_eq!(
        req.headers().get("content-type"),
        Some(s("application/x-www-form-urlencoded;charset=UTF-8"))
    );
    let parsed = req.body_mut().form_data_urlencoded().unwrap();
    let text = |v: Option<FormDataValue>| match v {
        Some(FormDataValue::Text(t)) => t,
        _ => panic!("expected a string entry"),
    };
    assert_eq!(text(parsed.get("a")), "1");
    assert_eq!(text(parsed.get("b")), "2");
}

#[test]
fn get_request_with_a_body_throws() {
    let r = url_req("https://example.com", init(Some("GET"), Some(BodyInit::Text(s("hi"))), None));
    assert!(matches!(r, Err(RequestError::BodyWithGetOrHead)));
}

#[test]
fn head_request_with_a_body_throws() {
    let r = url_req("https://example.com", init(Some("HEAD"), Some(BodyInit::Text(s("hi"))), None));
    assert!(matches!(r, Err(RequestError::BodyWithGetOrHead)));
}

#[test]
fn method_defaults_to_get_and_is_normalized() {
    let req1 = url_req("https://example.com", None).unwrap();
    assert_eq!(req1.method().as_str(), "GET");
    let req2 = url_req("https://example.com", init(Some("post"), None, None)).unwrap();
    assert_eq!(req2.method().as_str(), "POST");
}

#[test]
fn request_body_used_is_false_without_a_body_and_true_after_reading() {
    let mut without_body = url_req("https://example.com", None).unwrap();
    assert!(!without_body.body_used());
    assert_eq!(without_body.body_mut().text().unwrap(), "");

    let mut with_body = url_req("https://example.com", init(Some("POST"), Some(BodyInit::Text(s("hi"))), None)).unwrap();
    assert!(!with_body.body_used());
    with_body.body_mut().text().unwrap();
    assert!(with_body.body_used());
}

#[test]
fn explicit_null_body_is_treated_as_no_body() {
    let mut req = url_req("https://example.com", init(Some("GET"), None, None)).unwrap();
    assert!(!req.body_used());
    assert_eq!(req.body_mut().text().unwrap(), "");
}

#[test]
fn request_reading_the_body_twice_throws() {
    let mut req = url_req("https://example.com", init(Some("POST"), Some(BodyInit::Text(s("hi"))), None)).unwrap();
    req.body_mut().text().unwrap();
    assert!(req.body_mut().text().is_err());
}

#[test]
fn request_clone_produces_an_independently_readable_body_and_headers() {
    let headers = Headers::from_pairs(vec![(s("X-Foo"), s("bar"))]);
    let mut req =
        url_req("https://example.com", init(Some("POST"), Some(BodyInit::Text(s("hello"))), Some(headers))).unwrap();
    let mut clone = req.clone_request().unwrap();
    clone.headers_mut().set("X-Foo", s("changed"));
    assert_eq!(req.headers().get("x-foo"), Some(s("bar")));
    assert_eq!(clone.body_mut().text().unwrap(), "hello");
    assert_eq!(req.body_mut().text().unwrap(), "hello");
}

#[test]
fn request_cloning_an_already_read_body_throws() {
    let mut req = url_req("https://example.com", init(Some("POST"), Some(BodyInit::Text(s("hi"))), None)).unwrap();
    req.body_mut().text().unwrap();
    assert!(req.clone_request().is_err());
}

#[test]
fn constructing_from_an_existing_request_copies_its_fields() {
    let headers = Headers::from_pairs(vec![(s("X-Foo"), s("bar"))]);
    let mut original =
        url_req("https://example.com/a", init(Some("POST"), Some(BodyInit::Text(s("hello"))), Some(headers))).unwrap();
    let mut copy = Request::new(RequestInfo::Request(&original), None).unwrap();
    assert_eq!(copy.url(), "https://example.com/a");
    assert_eq!(copy.method().as_str(), "POST");
    assert_eq!(copy.headers().get("x-foo"), Some(s("bar")));
    assert_eq!(copy.body_mut().text().unwrap(), "hello");
    assert_eq!(original.body_mut().text().unwrap(), "hello");
}

#[test]
fn constructing_from_an_existing_request_lets_init_override_fields() {
    let headers = Headers::from_pairs(vec![(s("X-Foo"), s("bar"))]);
    let mut original =
        url_req("https://example.com/a", init(Some("POST"), Some(BodyInit::Text(s("hello"))), Some(headers))).unwrap();
    let override_headers = Headers::from_pairs(vec![(s("X-Foo"), s("baz"))]);
    let mut overridden = Request::new(
        RequestInfo::Request(&original),
        init(Some("PUT"), Some(BodyInit::Text(s("goodbye"))), Some(override_headers)),
    )
    .unwrap();
    assert_eq!(overridden.url(), "https://example.com/a");
    assert_eq!(overridden.method().as_str(), "PUT");
    assert_eq!(overridden.headers().get("x-foo"), Some(s("baz")));
    assert_eq!(overridden.body_mut().text().unwrap(), "goodbye");
    assert_eq!(original.body_mut().text().unwrap(), "hello");
}

#[test]
fn constructing_from_an_existing_request_headers_copy_is_independent() {
    let headers = Headers::from_pairs(vec![(s("X-Foo"), s("bar"))]);
    let original = url_req("https://example.com/a", init(None, None, Some(headers))).unwrap();
    let mut copy = Request::new(RequestInfo::Request(&original), None).unwrap();
    copy.headers_mut().set("X-Foo", s("changed"));
    assert_eq!(original.headers().get("x-foo"), Some(s("bar")));
}

#[test]
fn request_errors_come_in_order() {
    assert!(matches!(
        url_req("not a url", init(Some("TRACE"), None, None)),
        Err(RequestError::Method(MethodError::Forbidden))
    ));
    assert!(matches!(
        url_req("https://x.test", init(Some("bad method"), None, None)),
        Err(RequestError::Method(MethodError::InvalidToken))
    ));
    let mut used = url_req("https://x.test", init(Some("POST"), Some(BodyInit::Text(s("b"))), None)).unwrap();
    used.body_mut().text().unwrap();
    assert!(matches!(Request::new(RequestInfo::Request(&used), None), Err(RequestError::BodyUsed)));
    // A replacement body lifts the restriction.
    assert!(Request::new(RequestInfo::Request(&used), init(None, Some(BodyInit::Text(s("c"))), None)).is_ok());
}

#[test]
fn form_body_is_multipart_with_its_boundary() {
    let mut fd = FormData::new();
    fd.append(s("name"), FormDataEntryValue::Text(s("klaver")), None);
    let blob = Blob::new(&vec![BlobInit::Text(s("hello"))], Some(s("text/plain")));
    fd.append(s("file"), FormDataEntryValue::Blob(blob), Some(s("hello.txt")));
    let req = url_req("https://example.com", init(Some("POST"), Some(BodyInit::Form(fd)), None)).unwrap();
    let ct = req.headers().get("content-type").unwrap();
    assert!(ct.starts_with("multipart/form-data; boundary=----KlaverFormBoundary"));

    let (bytes, media) = extract(BodyInit::Blob(Blob::new(&vec![BlobInit::Text(s("x"))], Some(s("")))));
    assert_eq!(bytes, b"x".to_vec());
    assert_eq!(media, None);
}

#[test]
fn body_text_replaces_malformed_utf8() {
    let mut body = Body::from_bytes(vec![0x61, 0xff, 0x62]);
    assert_eq!(body.text().unwrap(), "a\u{fffd}b");
    assert_eq!(body.text(), Err(BodyError::AlreadyUsed));
}
