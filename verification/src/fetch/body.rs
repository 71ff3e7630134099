//! Bodies of requests and responses: what a body init extracts to (bytes and a media type),
//! and a body that can be read once.
use vstd::prelude::*;

use crate::blob::{extend_bytes, extend_utf8, opt_view, Blob, BlobView};
use crate::fetch::form_data::{boundary_text, multipart_bytes, FormData, FormDataValueView};
use crate::fetch::headers::{appended, lowercased, Headers};
use crate::fetch::url_search_params::{serialize_pairs, URLSearchParams};
use crate::text::{owned, push_chars, string_from_chars};

verus! {

/// `String::from_utf8_lossy`: the text of the bytes, each malformed sequence replaced by
/// U+FFFD.
pub uninterp spec fn utf8_lossy(bytes: Seq<u8>) -> Seq<char>;

/// `String::from_utf8_lossy`, made owned. Its documentation: valid UTF-8 comes back as it
/// is.
#[verifier::external_body]
fn lossy_text(bytes: &[u8]) -> (r: String)
    ensures
        r@ == utf8_lossy(bytes@),
        vstd::utf8::valid_utf8(bytes@) ==> r@ == vstd::utf8::decode_utf8(bytes@),
{
    String::from_utf8_lossy(bytes).into_owned()
}

/// What a body can be made from.
pub enum BodyInit {
    Text(String),
    Bytes(Vec<u8>),
    Blob(Blob),
    Params(URLSearchParams),
    Form(FormData),
}

/// The view of a body init.
pub enum BodyInitView {
    Text(Seq<char>),
    Bytes(Seq<u8>),
    Blob(BlobView),
    Params(Seq<(Seq<char>, Seq<char>)>),
    Form(Seq<(Seq<char>, FormDataValueView)>),
}

impl View for BodyInit {
    type V = BodyInitView;

    open spec fn view(&self) -> BodyInitView {
        match self {
            BodyInit::Text(s) => BodyInitView::Text(s@),
            BodyInit::Bytes(b) => BodyInitView::Bytes(b@),
            BodyInit::Blob(b) => BodyInitView::Blob(b@),
            BodyInit::Params(p) => BodyInitView::Params(p@),
            BodyInit::Form(f) => BodyInitView::Form(f@),
        }
    }
}

/// The bytes and media type a body init extracts to, for one choice of multipart boundary.
pub open spec fn extraction(init: BodyInitView, boundary: Seq<char>) -> (Seq<u8>, Option<Seq<char>>) {
    match init {
        BodyInitView::Text(s) => (vstd::utf8::encode_utf8(s), Some("text/plain;charset=UTF-8"@)),
        BodyInitView::Bytes(b) => (b, None),
        BodyInitView::Blob(b) => (
            b.bytes,
            match b.content_type {
                Some(t) => if t.len() > 0 {
                    Some(t)
                } else {
                    None
                },
                None => None,
            },
        ),
        BodyInitView::Params(p) => (
            vstd::utf8::encode_utf8(serialize_pairs(p)),
            Some("application/x-www-form-urlencoded;charset=UTF-8"@),
        ),
        BodyInitView::Form(f) => (multipart_bytes(boundary, f), Some("multipart/form-data; boundary="@ + boundary)),
    }
}

/// `(bytes, media type)` is what `init` extracts to: for a form, under some boundary made of
/// two random values; for anything else, exactly.
pub open spec fn extracts_to(init: BodyInitView, bytes: Seq<u8>, media: Option<Seq<char>>) -> bool {
    match init {
        BodyInitView::Form(_) => exists|a: u64, b: u64| (bytes, media) == #[trigger] extraction(init, boundary_text(a, b)),
        _ => (bytes, media) == extraction(init, Seq::empty()),
    }
}

/// Extracts a body init: its bytes and the media type it implies.
pub fn extract(init: BodyInit) -> (r: (Vec<u8>, Option<String>))
    ensures
        extracts_to(init@, r.0@, opt_view(r.1)),
{
    match init {
        BodyInit::Text(s) => {
            let mut out: Vec<u8> = Vec::new();
            extend_utf8(&mut out, s.as_str());
            (out, Some(owned("text/plain;charset=UTF-8")))
        },
        BodyInit::Bytes(b) => (b, None),
        BodyInit::Blob(b) => {
            let t = match b.media_type() {
                Some(t) => if t.as_str().is_empty() {
                    None
                } else {
                    Some(t)
                },
                None => None,
            };
            (b.bytes(), t)
        },
        BodyInit::Params(p) => {
            let text = p.to_string();
            let mut out: Vec<u8> = Vec::new();
            extend_utf8(&mut out, text.as_str());
            (out, Some(owned("application/x-www-form-urlencoded;charset=UTF-8")))
        },
        BodyInit::Form(f) => {
            let ghost fv = f@;
            let (boundary, bytes) = f.encode_multipart();
            let mut ct: Vec<char> = Vec::new();
            let prefix = owned("multipart/form-data; boundary=");
            push_chars(&mut ct, &prefix);
            push_chars(&mut ct, &boundary);
            let media = string_from_chars(&ct);
            proof {
                let (a, b) = choose|a: u64, b: u64| boundary@ == boundary_text(a, b);
                assert(media@ =~= "multipart/form-data; boundary="@ + boundary@);
                assert((bytes@, opt_view(Some(media))) == extraction(BodyInitView::Form(fv), boundary_text(a, b)));
            }
            (bytes, Some(media))
        },
    }
}

/// The headers after a body's media type is applied: set under `content-type` when the headers
/// have none and the body implies one.
pub open spec fn with_media_type(h: Map<Seq<char>, Seq<Seq<char>>>, media: Option<Seq<char>>) -> Map<Seq<char>, Seq<Seq<char>>> {
    match media {
        Some(t) => if h.dom().contains(lowercased("content-type"@)) {
            h
        } else {
            appended(h, lowercased("content-type"@), t)
        },
        None => h,
    }
}

/// Applies a body's media type to the headers.
pub fn apply_media_type(headers: &mut Headers, media: Option<String>)
    ensures
        final(headers)@ == with_media_type(old(headers)@, opt_view(media)),
{
    match media {
        Some(t) => {
            if !headers.has("content-type") {
                headers.append("content-type", t);
            }
        },
        None => {},
    }
}

/// The text a body reads as: its bytes decoded as UTF-8 with malformed sequences replaced,
/// or the empty string for a body-less message.
pub open spec fn body_text(data: Option<Seq<u8>>) -> Seq<char> {
    match data {
        Some(d) => utf8_lossy(d),
        None => Seq::empty(),
    }
}

/// Why reading a body failed.
#[derive(Debug, Clone, Copy, PartialEq, Eq, Structural)]
pub enum BodyError {
    /// The body was read already.
    AlreadyUsed,
}

/// A body: its bytes (none for a body-less message) and whether it was read.
pub struct Body {
    data: Option<Vec<u8>>,
    used: bool,
}

/// The view of a body.
pub struct BodyView {
    pub data: Option<Seq<u8>>,
    pub used: bool,
}

impl View for Body {
    type V = BodyView;

    closed spec fn view(&self) -> BodyView {
        BodyView {
            data: match self.data {
                Some(d) => Some(d@),
                None => None,
            },
            used: self.used,
        }
    }
}

impl Body {
    /// No body.
    pub fn empty() -> (b: Body)
        ensures
            b@.data is None,
            !b@.used,
    {
        Body { data: None, used: false }
    }

    /// A body holding these bytes, not read yet.
    pub fn from_bytes(bytes: Vec<u8>) -> (b: Body)
        ensures
            b@.data == Some(bytes@),
            !b@.used,
    {
        Body { data: Some(bytes), used: false }
    }

    /// `bodyUsed`.
    pub fn body_used(&self) -> (b: bool)
        ensures
            b == self@.used,
    {
        self.used
    }

    /// Reads the bytes: fails once the body was read; a body-less message reads as empty and
    /// stays unread; otherwise the body becomes read.
    pub fn take_bytes(&mut self) -> (r: Result<Vec<u8>, BodyError>)
        ensures
            old(self)@.used ==> r == Err::<Vec<u8>, BodyError>(BodyError::AlreadyUsed) && final(self)@ == old(self)@,
            !old(self)@.used ==> match old(self)@.data {
                None => (r matches Ok(v) && v@ == Seq::<u8>::empty() && final(self)@ == old(self)@),
                Some(d) => (r matches Ok(v) && v@ == d && final(self)@ == (BodyView { data: Some(d), used: true })),
            },
    {
        if self.used {
            return Err(BodyError::AlreadyUsed);
        }
        match &self.data {
            None => Ok(Vec::new()),
            Some(d) => {
                let mut out: Vec<u8> = Vec::new();
                extend_bytes(&mut out, d.as_slice());
                self.used = true;
                Ok(out)
            },
        }
    }

    /// `text()`: the bytes read as UTF-8 (malformed sequences replaced).
    pub fn text(&mut self) -> (r: Result<String, BodyError>)
        ensures
            old(self)@.used ==> r is Err && final(self)@ == old(self)@,
            !old(self)@.used ==> match old(self)@.data {
                None => (r matches Ok(t) && t@ == Seq::<char>::empty() && final(self)@ == old(self)@),
                Some(d) => (r matches Ok(t) && t@ == utf8_lossy(d) && final(self)@.used),
            },
    {
        match self.take_bytes() {
            Ok(b) => {
                let t = lossy_text(b.as_slice());
                proof {
                    if b@.len() == 0 {
                        assert(vstd::utf8::valid_utf8(b@));
                        assert(vstd::utf8::decode_utf8(b@) =~= Seq::<char>::empty());
                    }
                }
                Ok(t)
            },
            Err(e) => Err(e),
        }
    }

    /// `blob()`: the bytes as a blob of the given media type.
    pub fn blob(&mut self, content_type: Option<String>) -> (r: Result<Blob, BodyError>)
        ensures
            old(self)@.used ==> r is Err && final(self)@ == old(self)@,
            !old(self)@.used ==> (r matches Ok(b) && b@.content_type == opt_view(content_type) && b@.bytes == match old(
                self,
            )@.data {
                Some(d) => d,
                None => Seq::<u8>::empty(),
            }),
    {
        match self.take_bytes() {
            Ok(b) => Ok(Blob::from_bytes(b, content_type)),
            Err(e) => Err(e),
        }
    }

    /// `formData()` of an `application/x-www-form-urlencoded` body: its pairs, in order, as
    /// string entries.
    pub fn form_data_urlencoded(&mut self) -> (r: Result<FormData, BodyError>)
        ensures
            old(self)@.used ==> r is Err && final(self)@ == old(self)@,
            !old(self)@.used ==> (r matches Ok(f) && f@ == crate::fetch::url_search_params::form_pairs(
                body_text(old(self)@.data),
            ).map_values(|p: (Seq<char>, Seq<char>)| (p.0, FormDataValueView::Text(p.1)))),
    {
        let text = match self.text() {
            Ok(t) => t,
            Err(e) => return Err(e),
        };
        let pairs = crate::fetch::url_search_params::parse_form(text.as_str());
        let ghost pv = crate::fetch::url_search_params::pairs_view(pairs@);
        let mut form = FormData::new();
        let mut i: usize = 0;
        while i < pairs.len()
            invariant
                pv == crate::fetch::url_search_params::pairs_view(pairs@),
                i <= pairs@.len(),
                form@ == pv.subrange(0, i as int).map_values(|p: (Seq<char>, Seq<char>)| (p.0, FormDataValueView::Text(p.1))),
            decreases pairs.len() - i,
        {
            form.push_string(pairs[i].0.clone(), pairs[i].1.clone());
            i = i + 1;
            assert(form@ =~= pv.subrange(0, i as int).map_values(
                |p: (Seq<char>, Seq<char>)| (p.0, FormDataValueView::Text(p.1)),
            ));
        }
        assert(pv.subrange(0, pairs@.len() as int) =~= pv);
        Ok(form)
    }

    /// An independent copy of a body not yet read.
    pub fn try_clone(&self) -> (r: Result<Body, BodyError>)
        ensures
            self@.used ==> r is Err,
            !self@.used ==> (r matches Ok(b) && b@ == self@),
    {
        if self.used {
            return Err(BodyError::AlreadyUsed);
        }
        match &self.data {
            None => Ok(Body::empty()),
            Some(d) => {
                let mut out: Vec<u8> = Vec::new();
                extend_bytes(&mut out, d.as_slice());
                Ok(Body::from_bytes(out))
            },
        }
    }
}

} // verus!
