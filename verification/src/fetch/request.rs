//! `Request`: a parsed URL, a method, headers and a body read once, built from a URL or from
//! another request with `RequestInit` overrides.
use vstd::prelude::*;

use crate::blob::opt_view;
use crate::fetch::body::{apply_media_type, extract, extracts_to, with_media_type, Body, BodyError, BodyInit, BodyView};
use crate::fetch::headers::Headers;
use crate::fetch::url::{parse_url, parsed_url};
use crate::fetch::method::{is_forbidden, is_token, normalized_method, Method, MethodError};
use crate::text::{owned, upper_seq};

verus! {

/// `RequestInit`: the fields that override the input's.
pub struct RequestInit {
    pub method: Option<String>,
    pub headers: Option<Headers>,
    pub body: Option<BodyInit>,
    /// The abort signal, by the handle the host keeps it under.
    pub signal: Option<u64>,
}

/// The input of `new Request(input, init)`: a URL, or another request.
pub enum RequestInfo<'a> {
    Url(String),
    Request(&'a Request),
}

/// Why a request could not be built.
#[derive(Debug, Clone, Copy, PartialEq, Eq, Structural)]
pub enum RequestError {
    /// `init.method` is not a valid method.
    Method(MethodError),
    /// The URL does not parse.
    InvalidUrl,
    /// The input request's body was read already (and `init` gives none).
    BodyUsed,
    /// A `GET` or `HEAD` request was given a body.
    BodyWithGetOrHead,
}

/// `Request`.
pub struct Request {
    url: String,
    method: Method,
    headers: Headers,
    body: Body,
    signal: Option<u64>,
}

/// The view of a request.
pub struct RequestView {
    pub url: Seq<char>,
    pub method: Seq<char>,
    pub headers: Map<Seq<char>, Seq<Seq<char>>>,
    pub body: BodyView,
    /// The abort signal's handle.
    pub signal: Option<u64>,
}

impl View for Request {
    type V = RequestView;

    closed spec fn view(&self) -> RequestView {
        RequestView {
            url: self.url@,
            method: self.method@,
            headers: self.headers@,
            body: self.body@,
            signal: self.signal,
        }
    }
}

/// What a method given in `init` does: `Err` for an invalid or forbidden one, else its
/// normalised form.
pub open spec fn init_method_outcome(m: Seq<char>) -> Result<Seq<char>, MethodError> {
    if !is_token(m) {
        Err(MethodError::InvalidToken)
    } else if is_forbidden(upper_seq(m)) {
        Err(MethodError::Forbidden)
    } else {
        Ok(normalized_method(m))
    }
}


/// What `new Request(input, init)` is given as `input`: a URL's text, or another request.
pub enum RequestInput {
    Url(Seq<char>),
    Request(RequestView),
}

/// The input as [`RequestInput`].
pub open spec fn input_view(input: RequestInfo) -> RequestInput {
    match input {
        RequestInfo::Url(u) => RequestInput::Url(u@),
        RequestInfo::Request(q) => RequestInput::Request(q@),
    }
}

/// What `new Request(input, init)` gives: which error, in the order the checks are made, or
/// which request.
pub open spec fn request_outcome(
    input: RequestInput,
    init: Option<RequestInit>,
    r: Result<Request, RequestError>,
) -> bool {
    let init_method = match init {
        Some(i) => match i.method {
            Some(m) => Some(init_method_outcome(m@)),
            None => None,
        },
        None => None,
    };
    let gives_body = init matches Some(i) && i.body is Some;
    let url_ok = match input {
        RequestInput::Url(u) => parsed_url(u) is Some,
        RequestInput::Request(_) => true,
    };
    let input_body_used = match input {
        RequestInput::Url(_) => false,
        RequestInput::Request(q) => !gives_body && q.body.used,
    };
    let method = match init_method {
        Some(Ok(m)) => m,
        _ => match input {
            RequestInput::Request(q) => q.method,
            RequestInput::Url(_) => "GET"@,
        },
    };
    let base_headers = match init {
        Some(i) if i.headers is Some => i.headers.unwrap()@,
        _ => match input {
            RequestInput::Request(q) => q.headers,
            RequestInput::Url(_) => Map::empty(),
        },
    };
    let signal = match init {
        Some(i) if i.signal is Some => i.signal,
        _ => match input {
            RequestInput::Request(q) => q.signal,
            RequestInput::Url(_) => None,
        },
    };
    &&& (init_method matches Some(Err(e)) ==> r == Err::<Request, RequestError>(RequestError::Method(e)))
    &&& (!(init_method matches Some(Err(_))) && !url_ok ==> r == Err::<Request, RequestError>(
        RequestError::InvalidUrl,
    ))
    &&& (!(init_method matches Some(Err(_))) && url_ok && input_body_used ==> r == Err::<
        Request,
        RequestError,
    >(RequestError::BodyUsed))
    &&& (!(init_method matches Some(Err(_))) && url_ok && !input_body_used && gives_body && (method
        == "GET"@ || method == "HEAD"@) ==> r == Err::<Request, RequestError>(
        RequestError::BodyWithGetOrHead,
    ))
    &&& (!(init_method matches Some(Err(_))) && url_ok && !input_body_used && !(gives_body && (method
        == "GET"@ || method == "HEAD"@)) ==> r is Ok)
    &&& (r matches Ok(req) ==> {
        &&& req@.method == method
        &&& req@.signal == signal
        &&& req@.url == match input {
            RequestInput::Url(u) => parsed_url(u).unwrap(),
            RequestInput::Request(q) => q.url,
        }
        &&& !req@.body.used
        &&& if gives_body {
            exists|bytes: Seq<u8>, media: Option<Seq<char>>|
                #[trigger] extracts_to(init.unwrap().body.unwrap()@, bytes, media) && req@.body.data == Some(
                    bytes,
                ) && req@.headers == with_media_type(base_headers, media)
        } else {
            &&& req@.headers == base_headers
            &&& req@.body.data == match input {
                RequestInput::Request(q) => q.body.data,
                RequestInput::Url(_) => None,
            }
        }
    })

}

impl Request {
    /// `new Request(input, init)`. In order: a method in `init` is validated; a URL input is
    /// parsed; a request input lends its URL, method, headers and (unless `init` gives a body)
    /// a copy of its body, which must not have been read, and its signal; `init` overrides the
    /// method (default `GET`), the headers (default: a copy of the input's, or none) and the
    /// signal; a body with `GET` or
    /// `HEAD` is refused; a given body's media type becomes the `content-type` header unless
    /// the headers set one.
    #[verifier::rlimit(30)]
    pub fn new(input: RequestInfo, init: Option<RequestInit>) -> (r: Result<Request, RequestError>)
        ensures
            request_outcome(input_view(input), init, r),
    {
        let (init_method, init_headers, init_body, init_signal) = match init {
            Some(i) => (i.method, i.headers, i.body, i.signal),
            None => (None, None, None, None),
        };
        let method_override: Option<Method> = match init_method {
            Some(m) => match Method::from_text(m.as_str()) {
                Ok(v) => Some(v),
                Err(e) => return Err(RequestError::Method(e)),
            },
            None => None,
        };
        let gives_body = init_body.is_some();
        let (url, base_method, base_headers, base_body, base_signal) = match input {
            RequestInfo::Url(u) => match parse_url(u.as_str()) {
                Some(p) => (p, None, None, None, None),
                None => return Err(RequestError::InvalidUrl),
            },
            RequestInfo::Request(q) => {
                let base_body = if gives_body {
                    None
                } else {
                    match q.body.try_clone() {
                        Ok(b) => Some(b),
                        Err(_) => return Err(RequestError::BodyUsed),
                    }
                };
                (owned(q.url.as_str()), Some(q.method.duplicate()), Some(q.headers.duplicate()), base_body, q.signal)
            },
        };
        let method = match method_override {
            Some(m) => m,
            None => match base_method {
                Some(m) => m,
                None => Method::get(),
            },
        };
        let mut headers = match init_headers {
            Some(h) => h,
            None => match base_headers {
                Some(h) => h,
                None => Headers::new(),
            },
        };
        if gives_body && method.forbids_body() {
            return Err(RequestError::BodyWithGetOrHead);
        }
        let body = match init_body {
            Some(b) => {
                let ghost bi = b@;
                let (bytes, media) = extract(b);
                let ghost bv = bytes@;
                let ghost mv = opt_view(media);
                apply_media_type(&mut headers, media);
                assert(extracts_to(bi, bv, mv));
                Body::from_bytes(bytes)
            },
            None => match base_body {
                Some(b) => b,
                None => Body::empty(),
            },
        };
        let signal = match init_signal {
            Some(g) => Some(g),
            None => base_signal,
        };
        Ok(Request { url, method, headers, body, signal })
    }

    /// `url`.
    pub fn url(&self) -> (u: String)
        ensures
            u@ == self@.url,
    {
        owned(self.url.as_str())
    }

    /// `method`.
    pub fn method(&self) -> (m: &Method)
        ensures
            m@ == self@.method,
    {
        &self.method
    }

    /// `signal`: the handle of the request's abort signal, if it has one.
    pub fn signal(&self) -> (g: Option<u64>)
        ensures
            g == self@.signal,
    {
        self.signal
    }

    /// `headers`.
    pub fn headers(&self) -> (h: &Headers)
        ensures
            h@ == self@.headers,
    {
        &self.headers
    }

    /// `headers`, to change them.
    pub fn headers_mut(&mut self) -> (h: &mut Headers)
        ensures
            h@ == old(self)@.headers,
            final(self)@ == (RequestView { headers: final(h)@, ..old(self)@ }),
    {
        &mut self.headers
    }

    /// `bodyUsed`.
    pub fn body_used(&self) -> (b: bool)
        ensures
            b == self@.body.used,
    {
        self.body.body_used()
    }

    /// The body, to read it (`text()`, `bytes()`, `blob()`).
    pub fn body_mut(&mut self) -> (b: &mut Body)
        ensures
            b@ == old(self)@.body,
            final(self)@ == (RequestView { body: final(b)@, ..old(self)@ }),
    {
        &mut self.body
    }

    /// `clone()`: an independent request; fails once the body was read.
    pub fn clone_request(&self) -> (r: Result<Request, BodyError>)
        ensures
            self@.body.used ==> r is Err,
            !self@.body.used ==> (r matches Ok(c) && c@ == self@),
    {
        let body = match self.body.try_clone() {
            Ok(b) => b,
            Err(e) => return Err(e),
        };
        Ok(
            Request {
                url: owned(self.url.as_str()),
                method: self.method.duplicate(),
                headers: self.headers.duplicate(),
                body,
                signal: self.signal,
            },
        )
    }
}

} // verus!
