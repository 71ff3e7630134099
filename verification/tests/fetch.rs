use klaver_wintertc::events::abort::{AbortController, AbortReason, AbortSignal};
use klaver_wintertc::fetch::body::BodyInit;
use klaver_wintertc::fetch::client::{Client, ClientError, Route};
use klaver_wintertc::fetch::fetch::{fetch_settle, fetch_start, FetchError, FetchEvent, FetchInit, FetchStart};
use klaver_wintertc::fetch::headers::Headers;
use klaver_wintertc::fetch::request::{Request, RequestError, RequestInfo, RequestInit};
use klaver_wintertc::fetch::response::Response;
use klaver_wintertc::fetch::url::Url;

fn s(x: &str) -> String {
    x.to_string()
}

fn init(method: &str, body: &str, signal: Option<u64>) -> Option<RequestInit> {
    Some(RequestInit { method: Some(s(method)), headers: None, body: Some(BodyInit::Text(s(body))), signal })
}

/// A whole `fetch` call: the request is built and, unless its signal (looked up in `signals`
/// by handle) already aborted, handed to `client`, whose answer settles the call.
fn fetch(
    input: FetchInit,
    init: Option<RequestInit>,
    signals: &[(u64, &AbortSignal)],
    client: impl FnOnce(&mut Request) -> FetchEvent,
) -> Result<Response, FetchError> {
    let mut req = input.to_native_request(init).map_err(FetchError::Request)?;
    let signal = req.signal().and_then(|h| signals.iter().find(|(k, _)| *k == h).map(|(_, g)| *g));
    match fetch_start(signal) {
        FetchStart::Reject(reason) => Err(FetchError::Aborted(reason)),
        FetchStart::Send => {
            let url = req.url();
            let event = client(&mut req);
            fetch_settle(event, &url)
        },
    }
}

/// Answers every request with a canned 201 `hello`.
fn echo_client(_req: &mut Request) -> FetchEvent {
    let mut headers = Headers::new();
    headers.append("content-type", s("text/plain"));
    FetchEvent::Responded { status: 201, headers, body: b"hello".to_vec() }
}

/// Echoes the request's method and body text back as response headers.
fn echo_method_client(req: &mut Request) -> FetchEvent {
    let method = req.method().as_str().to_string();
    let body = req.body_mut().text().unwrap_or_default();
    let mut headers = Headers::new();
    headers.append("x-echo-method", method);
    headers.append("x-echo-body", body);
    FetchEvent::Responded { status: 200, headers, body: b"ok".to_vec() }
}

#[test]
fn fetch_sends_the_specified_method_and_body() {
    let res = fetch(FetchInit::String("http://example.com/"), init("PUT", "hi", None), &[], echo_method_client).unwrap();
    assert_eq!(res.headers().get("x-echo-method"), Some(s("PUT")));
    assert_eq!(res.headers().get("x-echo-body"), Some(s("hi")));
}

#[test]
fn fetch_returns_a_response_with_url_and_body() {
    let mut res = fetch(FetchInit::String("http://example.com/foo"), None, &[], echo_client).unwrap();
    assert_eq!(res.status(), 201);
    assert!(res.ok());
    assert_eq!(res.url(), "http://example.com/foo");
    assert!(!res.redirected());
    assert!(!res.body_used());
    assert_eq!(res.body_mut().text().unwrap(), "hello");
    assert!(res.body_used());
}

#[test]
fn fetch_with_a_request_and_init_applies_the_overrides() {
    let mut original = Request::new(RequestInfo::Url(s("http://example.com/")), init("POST", "original", None)).unwrap();
    let res = fetch(FetchInit::Request(&original), init("PUT", "overridden", None), &[], echo_method_client).unwrap();
    assert_eq!(res.headers().get("x-echo-method"), Some(s("PUT")));
    assert_eq!(res.headers().get("x-echo-body"), Some(s("overridden")));
    assert_eq!(original.method().as_str(), "POST");
    assert_eq!(original.body_mut().text().unwrap(), "original");
}

#[test]
fn aborting_before_response_rejects_with_the_signals_reason() {
    let mut controller = AbortController::new();
    let url = Url::from_str("http://example.com/").unwrap();
    let no_body = Some(RequestInit { method: None, headers: None, body: None, signal: Some(1) });
    let req = FetchInit::Url(&url).to_native_request(no_body).unwrap();
    assert_eq!(fetch_start(Some(controller.signal())), FetchStart::Send);
    // The request is still pending when the controller aborts.
    controller.abort(None);
    let reason = controller.signal().reason().unwrap();
    let r = fetch_settle(FetchEvent::Aborted(reason), &req.url());
    assert!(matches!(r, Err(FetchError::Aborted(AbortReason::AbortError))));
}

#[test]
fn fetch_rejects_immediately_if_signal_already_aborted() {
    let mut controller = AbortController::new();
    controller.abort(None);
    let mut sent = false;
    let r = fetch(
        FetchInit::String("http://example.com/"),
        Some(RequestInit { method: None, headers: None, body: None, signal: Some(7) }),
        &[(7, controller.signal())],
        |_| {
            sent = true;
            FetchEvent::Failed(0)
        },
    );
    assert!(matches!(r, Err(FetchError::Aborted(AbortReason::AbortError))));
    assert!(!sent);
}

#[test]
fn fetch_reports_request_errors_and_client_failures() {
    let r = fetch(FetchInit::String("not a url"), None, &[], echo_client);
    assert!(matches!(r, Err(FetchError::Request(RequestError::InvalidUrl))));
    let r = fetch(FetchInit::String("http://example.com/"), None, &[], |_| FetchEvent::Failed(9));
    assert!(matches!(r, Err(FetchError::Client(9))));
    let given = fetch_start(None);
    assert_eq!(given, FetchStart::Send);
}

#[test]
fn request_signal_comes_from_init_or_the_input_request() {
    let base = Request::new(
        RequestInfo::Url(s("http://example.com/")),
        Some(RequestInit { method: None, headers: None, body: None, signal: Some(3) }),
    )
    .unwrap();
    assert_eq!(base.signal(), Some(3));
    let same = FetchInit::Request(&base).to_native_request(None).unwrap();
    assert_eq!(same.signal(), Some(3));
    let other = FetchInit::Request(&base)
        .to_native_request(Some(RequestInit { method: None, headers: None, body: None, signal: Some(4) }))
        .unwrap();
    assert_eq!(other.signal(), Some(4));
}

#[test]
fn client_prefers_the_local_client() {
    let mut c: Client<&str, &str> = Client::new();
    assert_eq!(c.base_url(), "http://localhost:3000/");
    assert!(matches!(c.route(), Err(ClientError::NoClient)));
    assert_eq!(ClientError::NoClient.message(), "Could not find any Http client");
    c.set_shared_client("shared");
    assert!(matches!(c.route(), Ok(Route::Shared(&"shared"))));
    c.set_local_client("local");
    assert!(matches!(c.route(), Ok(Route::Local(&"local"))));
}
