//! Request methods: validation against the HTTP `token` grammar, the forbidden methods, and
//! normalisation of the well-known ones.
use vstd::prelude::*;

use crate::text::{ascii_uppercase, str_equals, upper_seq};

verus! {

/// A character of the HTTP `token` grammar (`tchar`).
pub open spec fn is_tchar(c: char) -> bool {
    ||| ('0' <= c && c <= '9')
    ||| ('a' <= c && c <= 'z')
    ||| ('A' <= c && c <= 'Z')
    ||| c == '!' || c == '#' || c == '$' || c == '%' || c == '&' || c == '\'' || c == '*'
    ||| c == '+' || c == '-' || c == '.' || c == '^' || c == '_' || c == '`' || c == '|' || c == '~'
}

/// A non-empty sequence of `tchar`s.
pub open spec fn is_token(s: Seq<char>) -> bool {
    s.len() > 0 && forall|i: int| 0 <= i < s.len() ==> is_tchar(#[trigger] s[i])
}

/// `CONNECT`, `TRACE` or `TRACK` (compared after ASCII uppercasing).
pub open spec fn is_forbidden(upper: Seq<char>) -> bool {
    upper == "CONNECT"@ || upper == "TRACE"@ || upper == "TRACK"@
}

/// One of the six methods that are normalised to upper case.
pub open spec fn is_well_known(upper: Seq<char>) -> bool {
    ||| upper == "DELETE"@
    ||| upper == "GET"@
    ||| upper == "HEAD"@
    ||| upper == "OPTIONS"@
    ||| upper == "POST"@
    ||| upper == "PUT"@
}

/// The normalised method: uppercased when it is well known, as given otherwise.
pub open spec fn normalized_method(s: Seq<char>) -> Seq<char> {
    if is_well_known(upper_seq(s)) {
        upper_seq(s)
    } else {
        s
    }
}

/// `http::Method::from_bytes` on the UTF-8 bytes of the text, then `Method::as_str`. The
/// parse succeeds exactly on a non-empty sequence of `tchar` bytes (a character outside ASCII
/// encodes to bytes that are no `tchar`), and `as_str` gives those bytes back.
#[verifier::external_body]
fn http_method_text(text: &str) -> (r: Option<String>)
    ensures
        r is Some <==> is_token(text@),
        r matches Some(t) ==> t@ == text@,
{
    match http::Method::from_bytes(text.as_bytes()) {
        Ok(m) => Some(m.as_str().to_owned()),
        Err(_) => None,
    }
}

/// Why a method was refused.
#[derive(Debug, Clone, Copy, PartialEq, Eq, Structural)]
pub enum MethodError {
    /// Not an HTTP `token`.
    InvalidToken,
    /// `CONNECT`, `TRACE` or `TRACK`, in any case.
    Forbidden,
}

/// A valid, non-forbidden, normalised request method.
#[derive(Debug)]
pub struct Method {
    name: String,
}

impl View for Method {
    type V = Seq<char>;

    closed spec fn view(&self) -> Seq<char> {
        self.name@
    }
}

impl Method {
    #[verifier::type_invariant]
    spec fn wf(&self) -> bool {
        &&& is_token(self.name@)
        &&& !is_forbidden(upper_seq(self.name@))
        &&& normalized_method(self.name@) == self.name@
    }

    /// An independent copy.
    pub fn duplicate(&self) -> (m: Method)
        ensures
            m@ == self@,
    {
        proof {
            use_type_invariant(self);
        }
        Method { name: crate::text::owned(self.name.as_str()) }
    }

    /// `GET`, the default method.
    pub fn get() -> (m: Method)
        ensures
            m@ == "GET"@,
    {
        let name = crate::text::owned("GET");
        proof {
            reveal_strlit("GET");
            reveal_strlit("CONNECT");
            reveal_strlit("TRACE");
            reveal_strlit("TRACK");
            assert(is_tchar('G') && is_tchar('E') && is_tchar('T'));
            assert(upper_seq(name@) =~= name@);
        }
        Method { name }
    }

    /// Parses and normalises a method name.
    pub fn from_text(text: &str) -> (r: Result<Method, MethodError>)
        ensures
            match r {
                Ok(m) => is_token(text@) && !is_forbidden(upper_seq(text@)) && m@ == normalized_method(text@),
                Err(MethodError::InvalidToken) => !is_token(text@),
                Err(MethodError::Forbidden) => is_token(text@) && is_forbidden(upper_seq(text@)),
            },
    {
        let parsed = match http_method_text(text) {
            Some(p) => p,
            None => return Err(MethodError::InvalidToken),
        };
        let upper = ascii_uppercase(parsed.as_str());
        let u = upper.as_str();
        if str_equals(u, "CONNECT") || str_equals(u, "TRACE") || str_equals(u, "TRACK") {
            return Err(MethodError::Forbidden);
        }
        proof {
            lemma_normalize_idempotent(text@);
        }
        if str_equals(u, "DELETE") || str_equals(u, "GET") || str_equals(u, "HEAD") || str_equals(u, "OPTIONS")
            || str_equals(u, "POST") || str_equals(u, "PUT") {
            Ok(Method { name: upper })
        } else {
            Ok(Method { name: parsed })
        }
    }

    /// The method's name.
    pub fn as_str(&self) -> (s: &str)
        ensures
            s@ == self@,
    {
        self.name.as_str()
    }

    /// Whether this is `GET` or `HEAD`, the methods whose requests cannot carry a body.
    pub fn forbids_body(&self) -> (b: bool)
        ensures
            b == (self@ == "GET"@ || self@ == "HEAD"@),
    {
        str_equals(self.name.as_str(), "GET") || str_equals(self.name.as_str(), "HEAD")
    }
}

/// Normalising is idempotent: a normalised method parses back to itself, with the same verdict
/// on being forbidden.
pub proof fn lemma_normalize_idempotent(s: Seq<char>)
    requires
        is_token(s),
    ensures
        is_token(normalized_method(s)),
        upper_seq(normalized_method(s)) == upper_seq(s),
        normalized_method(normalized_method(s)) == normalized_method(s),
{
    let u = upper_seq(s);
    assert forall|i: int| 0 <= i < u.len() implies is_tchar(#[trigger] u[i]) by {
        assert(is_tchar(s[i]));
    }
    assert(upper_seq(u) =~= u);
}

} // verus!
