//! `atob`/`btoa`: forgiving base64 between binary (Latin-1) strings and ASCII.
use vstd::prelude::*;

use base64::prelude::{Engine, BASE64_STANDARD};

use crate::text::{chars_of, string_from_chars};

verus! {

/// Why `atob`/`btoa` refused their input.
#[derive(Debug, Clone, Copy, PartialEq, Eq, Structural)]
pub enum B64Error {
    /// `atob`: the input (after whitespace removal) is not valid padded base64.
    InvalidBase64,
    /// `btoa`: a character above U+00FF.
    OutsideLatin1,
}

/// Standard (padded) base64 text of a byte string.
pub uninterp spec fn b64_standard_text(bytes: Seq<u8>) -> Seq<char>;

/// Decoding of standard (padded) base64 text; `None` when it isn't valid.
pub uninterp spec fn b64_standard_bytes(text: Seq<char>) -> Option<Seq<u8>>;

/// A character of the standard base64 alphabet or its `=` padding.
pub open spec fn is_b64_char(c: char) -> bool {
    ('A' <= c <= 'Z') || ('a' <= c <= 'z') || ('0' <= c <= '9') || c == '+' || c == '/' || c == '='
}

/// Every character of `s` is in the base64 alphabet.
pub open spec fn all_b64_chars(s: Seq<char>) -> bool {
    forall|i: int| 0 <= i < s.len() ==> is_b64_char(#[trigger] s[i])
}

/// `BASE64_STANDARD.encode`: the base64 text of `bytes`, made of alphabet characters only,
/// which the same engine decodes back to `bytes`.
#[verifier::external_body]
fn standard_encode(bytes: &[u8]) -> (s: String)
    ensures
        s@ == b64_standard_text(bytes@),
        all_b64_chars(s@),
        b64_standard_bytes(s@) == Some(bytes@),
{
    BASE64_STANDARD.encode(bytes)
}

/// `BASE64_STANDARD.decode`.
#[verifier::external_body]
fn standard_decode(text: &str) -> (r: Option<Vec<u8>>)
    ensures
        crate::crypto::rsa::opt_bytes(r) == b64_standard_bytes(text@),
{
    BASE64_STANDARD.decode(text).ok()
}

/// ASCII whitespace as the forgiving-base64 algorithm strips it.
pub open spec fn is_ascii_whitespace(c: char) -> bool {
    c == ' ' || c == '\t' || c == '\n' || c == '\r' || c == '\x0c'
}

/// `s` without its ASCII whitespace.
pub open spec fn strip_whitespace(s: Seq<char>) -> Seq<char>
    decreases s.len(),
{
    if s.len() == 0 {
        s
    } else if is_ascii_whitespace(s.last()) {
        strip_whitespace(s.drop_last())
    } else {
        strip_whitespace(s.drop_last()).push(s.last())
    }
}

/// Each character of `s` as a byte (all are at most U+00FF).
pub open spec fn latin1_bytes(s: Seq<char>) -> Seq<u8> {
    Seq::new(s.len(), |i: int| (s[i] as u32) as u8)
}

/// Each byte as the character with that code point.
pub open spec fn latin1_chars(b: Seq<u8>) -> Seq<char> {
    Seq::new(b.len(), |i: int| b[i] as char)
}

/// Every character of `s` is at most U+00FF.
pub open spec fn is_latin1(s: Seq<char>) -> bool {
    forall|i: int| 0 <= i < s.len() ==> (#[trigger] s[i] as u32) <= 0xFF
}

/// `atob`: decodes base64 (ASCII whitespace ignored) into a binary string, one character per
/// byte.
pub fn atob(input: &str) -> (r: Result<String, B64Error>)
    ensures
        r matches Ok(s) ==> b64_standard_bytes(strip_whitespace(input@)) == Some(latin1_bytes(s@))
            && is_latin1(s@),
        r is Err <==> b64_standard_bytes(strip_whitespace(input@)) is None,
        r matches Err(e) ==> e == B64Error::InvalidBase64,
{
    let cs = chars_of(input);
    let mut kept: Vec<char> = Vec::new();
    let mut i: usize = 0;
    while i < cs.len()
        invariant
            cs@ == input@,
            i <= cs@.len(),
            kept@ == strip_whitespace(cs@.subrange(0, i as int)),
        decreases cs.len() - i,
    {
        let c = cs[i];
        proof {
            assert(cs@.subrange(0, i + 1).drop_last() =~= cs@.subrange(0, i as int));
        }
        if !(c == ' ' || c == '\t' || c == '\n' || c == '\r' || c == '\x0c') {
            kept.push(c);
        }
        i = i + 1;
    }
    assert(cs@.subrange(0, cs@.len() as int) =~= cs@);
    let filtered = string_from_chars(&kept);
    match standard_decode(filtered.as_str()) {
        Some(bytes) => {
            let mut out: Vec<char> = Vec::new();
            let mut j: usize = 0;
            while j < bytes.len()
                invariant
                    j <= bytes@.len(),
                    out@ == latin1_chars(bytes@.subrange(0, j as int)),
                decreases bytes.len() - j,
            {
                out.push(bytes[j] as char);
                j = j + 1;
                assert(out@ =~= latin1_chars(bytes@.subrange(0, j as int)));
            }
            let s = string_from_chars(&out);
            proof {
                assert(bytes@.subrange(0, bytes@.len() as int) =~= bytes@);
                assert(latin1_bytes(s@) =~= bytes@) by {
                    assert forall|k: int| 0 <= k < bytes@.len() implies latin1_bytes(s@)[k] == bytes@[k] by {
                        let b = bytes@[k];
                        assert((b as char) as u8 == b);
                    }
                }
                assert forall|k: int| 0 <= k < s@.len() implies (#[trigger] s@[k] as u32) <= 0xFF by {
                    let b = bytes@[k];
                    assert((b as char) as u32 <= 0xFF);
                }
            }
            Ok(s)
        },
        None => Err(B64Error::InvalidBase64),
    }
}

/// `btoa`: encodes a binary string (every character at most U+00FF) as base64.
pub fn btoa(input: &str) -> (r: Result<String, B64Error>)
    ensures
        r matches Ok(s) ==> is_latin1(input@) && s@ == b64_standard_text(latin1_bytes(input@)),
        r matches Ok(s) ==> all_b64_chars(s@) && b64_standard_bytes(s@) == Some(latin1_bytes(input@)),
        r is Err <==> !is_latin1(input@),
        r matches Err(e) ==> e == B64Error::OutsideLatin1,
{
    let cs = chars_of(input);
    let mut bytes: Vec<u8> = Vec::new();
    let mut i: usize = 0;
    while i < cs.len()
        invariant
            cs@ == input@,
            i <= cs@.len(),
            bytes@ == latin1_bytes(cs@.subrange(0, i as int)),
            forall|k: int| 0 <= k < i ==> (#[trigger] cs@[k] as u32) <= 0xFF,
        decreases cs.len() - i,
    {
        let c = cs[i];
        if (c as u32) > 0xFF {
            return Err(B64Error::OutsideLatin1);
        }
        let code: u32 = c as u32;
        bytes.push(code as u8);
        i = i + 1;
        assert(bytes@ =~= latin1_bytes(cs@.subrange(0, i as int)));
    }
    assert(cs@.subrange(0, cs@.len() as int) =~= cs@);
    Ok(standard_encode(&bytes))
}

/// Text with no ASCII whitespace is left as it is by whitespace stripping.
pub proof fn lemma_strip_without_whitespace(s: Seq<char>)
    requires
        forall|i: int| 0 <= i < s.len() ==> !is_ascii_whitespace(#[trigger] s[i]),
    ensures
        strip_whitespace(s) == s,
    decreases s.len(),
{
    if s.len() > 0 {
        assert(!is_ascii_whitespace(s[s.len() - 1]));
        lemma_strip_without_whitespace(s.drop_last());
        assert(s.drop_last().push(s.last()) =~= s);
    }
}

/// A binary string is recovered from its bytes.
pub proof fn lemma_latin1_round_trip(input: Seq<char>)
    requires
        is_latin1(input),
    ensures
        latin1_chars(latin1_bytes(input)) == input,
{
    assert forall|i: int| 0 <= i < input.len() implies latin1_chars(latin1_bytes(input))[i] == input[i] by {
        let c = input[i];
        let code: u32 = c as u32;
        assert(code <= 0xFF);
        assert((code as u8) as u32 == code) by (bit_vector)
            requires
                code <= 0xFF,
        ;
        let b: u8 = code as u8;
        vstd::utf8::char_u32_cast(c, code);
        assert((b as u32) as char == c);
    }
    assert(latin1_chars(latin1_bytes(input)) =~= input);
}

/// `atob` after `btoa` gives back the original binary string: `btoa`'s output has no
/// whitespace and decodes to the bytes it encoded, so whatever `atob` returns for it is the
/// input.
pub proof fn lemma_atob_inverts_btoa(input: Seq<char>, encoded: Seq<char>, decoded: Seq<char>)
    requires
        is_latin1(input),
        all_b64_chars(encoded),
        b64_standard_bytes(encoded) == Some(latin1_bytes(input)),
        b64_standard_bytes(strip_whitespace(encoded)) == Some(latin1_bytes(decoded)),
        is_latin1(decoded),
    ensures
        decoded == input,
{
    assert forall|i: int| 0 <= i < encoded.len() implies !is_ascii_whitespace(#[trigger] encoded[i]) by {
        assert(is_b64_char(encoded[i]));
    }
    lemma_strip_without_whitespace(encoded);
    lemma_latin1_round_trip(input);
    lemma_latin1_round_trip(decoded);
}

} // verus!
