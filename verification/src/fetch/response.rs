//! `Response`: status, status text, headers and a body read once.
use vstd::prelude::*;

use crate::blob::opt_view;
use crate::fetch::body::{apply_media_type, extract, extracts_to, with_media_type, Body, BodyError, BodyInit, BodyView};
use crate::fetch::headers::Headers;
use crate::text::owned;

verus! {

/// `http::StatusCode::from_u16(code)` then `canonical_reason()`: the standard reason phrase of
/// a status code, when it has one.
pub uninterp spec fn canonical_reason(code: u16) -> Option<Seq<char>>;

/// The reason phrase of a status code (from `http::StatusCode`), if the code is a valid status
/// and has one.
#[verifier::external_body]
fn reason_phrase(code: u16) -> (r: Option<String>)
    ensures
        opt_view(r) == canonical_reason(code),
{
    match http::StatusCode::from_u16(code) {
        Ok(s) => match s.canonical_reason() {
            Some(t) => Some(t.to_owned()),
            None => None,
        },
        Err(_) => None,
    }
}

/// The status text a response gets: the given one, else the status's reason phrase, else the
/// empty string.
pub open spec fn status_text_for(given: Option<Seq<char>>, status: u16) -> Seq<char> {
    match given {
        Some(t) => t,
        None => match canonical_reason(status) {
            Some(t) => t,
            None => Seq::empty(),
        },
    }
}

fn status_text_of(given: Option<String>, status: u16) -> (r: String)
    ensures
        r@ == status_text_for(opt_view(given), status),
{
    match given {
        Some(t) => t,
        None => match reason_phrase(status) {
            Some(t) => t,
            None => String::new(),
        },
    }
}

/// `ResponseInit`.
pub struct ResponseInit {
    pub status: Option<u16>,
    pub status_text: Option<String>,
    pub headers: Option<Headers>,
}

/// Why a response could not be built.
#[derive(Debug, Clone, Copy, PartialEq, Eq, Structural)]
pub enum ResponseError {
    /// The status is outside 200 through 599.
    StatusOutOfRange,
}

/// `Response`.
pub struct Response {
    headers: Headers,
    status: u16,
    status_text: String,
    body: Body,
    url: String,
    redirected: bool,
}

/// The view of a response.
pub struct ResponseView {
    pub headers: Map<Seq<char>, Seq<Seq<char>>>,
    pub status: u16,
    pub status_text: Seq<char>,
    pub body: BodyView,
    pub url: Seq<char>,
    pub redirected: bool,
}

impl View for Response {
    type V = ResponseView;

    closed spec fn view(&self) -> ResponseView {
        ResponseView {
            headers: self.headers@,
            status: self.status,
            status_text: self.status_text@,
            body: self.body@,
            url: self.url@,
            redirected: self.redirected,
        }
    }
}

/// The status a response init asks for: the given one, or 200.
pub open spec fn init_status(init: Option<ResponseInit>) -> u16 {
    match init {
        Some(i) => match i.status {
            Some(s) => s,
            None => 200,
        },
        None => 200,
    }
}

/// The headers a response init gives: its own, or none.
pub open spec fn init_headers(init: Option<ResponseInit>) -> Map<Seq<char>, Seq<Seq<char>>> {
    match init {
        Some(i) => match i.headers {
            Some(h) => h@,
            None => Map::empty(),
        },
        None => Map::empty(),
    }
}

/// The status text a response init gives, if any.
pub open spec fn init_status_text(init: Option<ResponseInit>) -> Option<Seq<char>> {
    match init {
        Some(i) => opt_view(i.status_text),
        None => None,
    }
}

impl Response {
    /// `new Response(body, init)`: the status must lie in 200 through 599; the status text is
    /// the given one or the reason phrase; a body's media type becomes the `content-type`
    /// header unless the headers set one.
    pub fn new(body: Option<BodyInit>, init: Option<ResponseInit>) -> (r: Result<Response, ResponseError>)
        ensures
            (r is Err) == !(200 <= init_status(init) <= 599),
            r matches Ok(res) ==> {
                &&& res@.status == init_status(init)
                &&& res@.status_text == status_text_for(init_status_text(init), init_status(init))
                &&& res@.url == Seq::<char>::empty()
                &&& !res@.redirected
                &&& !res@.body.used
                &&& match body {
                    None => res@.body.data is None && res@.headers == init_headers(init),
                    Some(b) => exists|bytes: Seq<u8>, media: Option<Seq<char>>|
                        #[trigger] extracts_to(b@, bytes, media) && res@.body.data == Some(bytes) && res@.headers
                            == with_media_type(init_headers(init), media),
                }
            },
    {
        let (status, status_text, headers) = match init {
            Some(i) => {
                let status = match i.status {
                    Some(s) => s,
                    None => 200,
                };
                let headers = match i.headers {
                    Some(h) => h,
                    None => Headers::new(),
                };
                (status, i.status_text, headers)
            },
            None => (200, None, Headers::new()),
        };
        if status < 200 || status > 599 {
            return Err(ResponseError::StatusOutOfRange);
        }
        let status_text = status_text_of(status_text, status);
        let mut headers = headers;
        let b = match body {
            Some(init_body) => {
                let ghost bi = init_body@;
                let (bytes, media) = extract(init_body);
                let ghost bv = bytes@;
                let ghost mv = opt_view(media);
                apply_media_type(&mut headers, media);
                let b = Body::from_bytes(bytes);
                assert(extracts_to(bi, bv, mv));
                b
            },
            None => Body::empty(),
        };
        Ok(Response { headers, status, status_text, body: b, url: String::new(), redirected: false })
    }

    /// A response received over the network: the status text is the reason phrase.
    pub fn from_native(status: u16, headers: Headers, body: Vec<u8>, url: String) -> (r: Response)
        ensures
            r@.status == status,
            r@.status_text == status_text_for(None, status),
            r@.headers == headers@,
            r@.body == (BodyView { data: Some(body@), used: false }),
            r@.url == url@,
            !r@.redirected,
    {
        let status_text = status_text_of(None, status);
        Response { headers, status, status_text, body: Body::from_bytes(body), url, redirected: false }
    }

    /// `status`.
    pub fn status(&self) -> (s: u16)
        ensures
            s == self@.status,
    {
        self.status
    }

    /// `ok`: whether the status is a success (200 through 299).
    pub fn ok(&self) -> (b: bool)
        ensures
            b == (200 <= self@.status <= 299),
    {
        200 <= self.status && self.status <= 299
    }

    /// `statusText`.
    pub fn status_text(&self) -> (t: String)
        ensures
            t@ == self@.status_text,
    {
        owned(self.status_text.as_str())
    }

    /// `url`.
    pub fn url(&self) -> (u: String)
        ensures
            u@ == self@.url,
    {
        owned(self.url.as_str())
    }

    /// `redirected`: always `false`, as redirects are not followed here.
    pub fn redirected(&self) -> (b: bool)
        ensures
            b == self@.redirected,
    {
        self.redirected
    }

    /// `headers`.
    pub fn headers(&self) -> (h: &Headers)
        ensures
            h@ == self@.headers,
    {
        &self.headers
    }

    /// `headers`, to change them.
    pub fn headers_mut(&mut self) -> (h: &mut Headers)
        ensures
            h@ == old(self)@.headers,
            final(self)@ == (ResponseView { headers: final(h)@, ..old(self)@ }),
    {
        &mut self.headers
    }

    /// `bodyUsed`.
    pub fn body_used(&self) -> (b: bool)
        ensures
            b == self@.body.used,
    {
        self.body.body_used()
    }

    /// The body, to read it (`text()`, `bytes()`, `blob()`).
    pub fn body_mut(&mut self) -> (b: &mut Body)
        ensures
            b@ == old(self)@.body,
            final(self)@ == (ResponseView { body: final(b)@, ..old(self)@ }),
    {
        &mut self.body
    }

    /// `clone()`: an independent response; fails once the body was read.
    pub fn clone_response(&self) -> (r: Result<Response, BodyError>)
        ensures
            self@.body.used ==> r is Err,
            !self@.body.used ==> (r matches Ok(c) && c@ == self@),
    {
        let body = match self.body.try_clone() {
            Ok(b) => b,
            Err(e) => return Err(e),
        };
        Ok(
            Response {
                headers: self.headers.duplicate(),
                status: self.status,
                status_text: owned(self.status_text.as_str()),
                body,
                url: owned(self.url.as_str()),
                redirected: self.redirected,
            },
        )
    }
}

} // verus!
