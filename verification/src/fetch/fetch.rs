//! `fetch()`: the request a call sends, whether it is refused before it is sent, and how it
//! settles. Sending the request and waiting for its response or its signal is the host's work:
//! it hands each outcome back as a [`FetchEvent`].
use vstd::prelude::*;

use crate::events::abort::{AbortReason, AbortSignal};
use crate::fetch::headers::Headers;
use crate::fetch::request::{request_outcome, Request, RequestError, RequestInfo, RequestInit, RequestInput};
use crate::fetch::response::{status_text_for, Response};
use crate::fetch::body::BodyView;
use crate::fetch::url::Url;
use crate::text::owned;

verus! {

/// `fetch`'s first argument: a request, a URL, or a URL's text.
pub enum FetchInit<'a> {
    Request(&'a Request),
    Url(&'a Url),
    String(&'a str),
}

/// The input that the request is built from: a URL by its serialisation.
pub open spec fn fetch_input(input: FetchInit) -> RequestInput {
    match input {
        FetchInit::Request(q) => RequestInput::Request(q@),
        FetchInit::Url(u) => RequestInput::Url(u@.href),
        FetchInit::String(s) => RequestInput::Url(s@),
    }
}

impl<'a> FetchInit<'a> {
    /// The request that `fetch(input, init)` sends: `new Request(input, init)`, a URL taken by
    /// its serialisation. The input request itself is left as it is.
    pub fn to_native_request(self, init: Option<RequestInit>) -> (r: Result<Request, RequestError>)
        ensures
            request_outcome(fetch_input(self), init, r),
    {
        match self {
            FetchInit::Request(q) => Request::new(RequestInfo::Request(q), init),
            FetchInit::Url(u) => Request::new(RequestInfo::Url(u.get_href()), init),
            FetchInit::String(s) => Request::new(RequestInfo::Url(owned(s)), init),
        }
    }
}

/// Whether a built request is sent.
#[derive(Debug, Clone, Copy, PartialEq, Eq, Structural)]
pub enum FetchStart {
    /// Send the request and wait for its response or its signal.
    Send,
    /// The signal had already aborted: the call is refused with its reason, nothing is sent.
    Reject(AbortReason),
}

/// What happened to a sent request.
pub enum FetchEvent {
    /// The client answered.
    Responded { status: u16, headers: Headers, body: Vec<u8> },
    /// The client failed (the error, by the handle the host keeps it under).
    Failed(u64),
    /// The request's signal aborted first, with this reason.
    Aborted(AbortReason),
}

/// Why a `fetch` call was refused.
#[derive(Debug, Clone, Copy, PartialEq, Eq, Structural)]
pub enum FetchError {
    /// The request could not be built.
    Request(RequestError),
    /// The signal aborted, before or while the request was sent.
    Aborted(AbortReason),
    /// The client failed.
    Client(u64),
}

/// Decides whether to send a request whose signal (if it has one) is `signal`: an already
/// aborted signal refuses the call with its reason.
pub fn fetch_start(signal: Option<&AbortSignal>) -> (s: FetchStart)
    ensures
        match signal {
            Some(g) => if g@.aborted {
                g@.reason matches Some(reason) && s == FetchStart::Reject(reason)
            } else {
                s == FetchStart::Send
            },
            None => s == FetchStart::Send,
        },
{
    match signal {
        Some(g) => match g.reason() {
            Some(reason) => FetchStart::Reject(reason),
            None => FetchStart::Send,
        },
        None => FetchStart::Send,
    }
}

/// How a sent request settles: an answer becomes a response for `request_url` (status text
/// the reason phrase, not redirected, body unread); a client failure or an abort refuses the
/// call.
pub fn fetch_settle(event: FetchEvent, request_url: &str) -> (r: Result<Response, FetchError>)
    ensures
        match event {
            FetchEvent::Responded { status, headers, body } => r matches Ok(resp) && resp@.status == status
                && resp@.status_text == status_text_for(None, status) && resp@.headers == headers@ && resp@.body
                == (BodyView { data: Some(body@), used: false }) && resp@.url == request_url@ && !resp@.redirected,
            FetchEvent::Failed(e) => r == Err::<Response, FetchError>(FetchError::Client(e)),
            FetchEvent::Aborted(reason) => r == Err::<Response, FetchError>(FetchError::Aborted(reason)),
        },
{
    match event {
        FetchEvent::Responded { status, headers, body } => Ok(
            Response::from_native(status, headers, body, owned(request_url)),
        ),
        FetchEvent::Failed(e) => Err(FetchError::Client(e)),
        FetchEvent::Aborted(reason) => Err(FetchError::Aborted(reason)),
    }
}

} // verus!
