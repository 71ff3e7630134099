//! JSON Web Keys (RFC 7517/7518) for symmetric, RSA and EC keys, as plain values: building a
//! JWK from key material and reading key material back out of one.
use vstd::prelude::*;
use vstd::string::StrSliceExecFns;

use base64::prelude::{Engine, BASE64_URL_SAFE_NO_PAD};

use super::ec::{EcComponents, EcCurve};
use super::rsa::RsaComponents;
use crate::text::{chars_of, owned, str_equals};

verus! {

/// The members of a JSON Web Key that WebCrypto reads or writes. A member that is absent (or
/// not a string, for the string members) is `None`.
pub struct Jwk {
    pub kty: Option<String>,
    pub alg: Option<String>,
    pub ext: Option<bool>,
    pub k: Option<String>,
    pub n: Option<String>,
    pub e: Option<String>,
    pub d: Option<String>,
    pub p: Option<String>,
    pub q: Option<String>,
    pub dp: Option<String>,
    pub dq: Option<String>,
    pub qi: Option<String>,
    pub crv: Option<String>,
    pub x: Option<String>,
    pub y: Option<String>,
}

/// A JWK member that must be present.
#[derive(Debug, Clone, Copy, PartialEq, Eq, Structural)]
pub enum JwkField {
    K,
    N,
    E,
    P,
    Q,
    Crv,
    X,
    Y,
}

/// The key type a JWK was expected to have.
#[derive(Debug, Clone, Copy, PartialEq, Eq, Structural)]
pub enum JwkKty {
    Oct,
    Rsa,
    Ec,
}

/// Why a JWK was refused (each is a `DataError`).
#[derive(Debug, Clone, PartialEq, Eq)]
pub enum JwkError {
    /// `kty` is not the expected key type; carries what was found (empty when absent).
    WrongKty { expected: JwkKty, found: String },
    /// A required member is missing.
    MissingField(JwkField),
    /// A member is not valid base64url.
    InvalidBase64,
}

impl JwkField {
    /// The member's name in the JWK.
    pub fn name(self) -> (s: &'static str)
        ensures
            s@ == self.spec_name(),
    {
        match self {
            JwkField::K => "k",
            JwkField::N => "n",
            JwkField::E => "e",
            JwkField::P => "p",
            JwkField::Q => "q",
            JwkField::Crv => "crv",
            JwkField::X => "x",
            JwkField::Y => "y",
        }
    }
}

impl JwkField {
    /// The member's name, as a spec.
    pub open spec fn spec_name(self) -> Seq<char> {
        match self {
            JwkField::K => "k"@,
            JwkField::N => "n"@,
            JwkField::E => "e"@,
            JwkField::P => "p"@,
            JwkField::Q => "q"@,
            JwkField::Crv => "crv"@,
            JwkField::X => "x"@,
            JwkField::Y => "y"@,
        }
    }
}

impl JwkKty {
    /// The `kty` value: `"oct"`, `"RSA"` or `"EC"`.
    pub fn name(self) -> (s: &'static str)
        ensures
            s@ == self.spec_text(),
    {
        match self {
            JwkKty::Oct => "oct",
            JwkKty::Rsa => "RSA",
            JwkKty::Ec => "EC",
        }
    }

    /// The `kty` value, as a spec.
    pub open spec fn spec_text(self) -> Seq<char> {
        match self {
            JwkKty::Oct => "oct"@,
            JwkKty::Rsa => "RSA"@,
            JwkKty::Ec => "EC"@,
        }
    }
}

/// base64url (no padding) text of a byte string.
pub uninterp spec fn b64url_text(bytes: Seq<u8>) -> Seq<char>;

/// Decoding of unpadded base64url text; `None` when it isn't valid.
pub uninterp spec fn b64url_bytes(text: Seq<char>) -> Option<Seq<u8>>;

/// `s` has no `=`.
pub open spec fn unpadded(s: Seq<char>) -> bool {
    forall|i: int| 0 <= i < s.len() ==> #[trigger] s[i] != '='
}

/// `BASE64_URL_SAFE_NO_PAD.encode`: unpadded base64url text, which the same engine decodes
/// back to `bytes`.
#[verifier::external_body]
fn url_safe_encode(bytes: &[u8]) -> (s: String)
    ensures
        s@ == b64url_text(bytes@),
        unpadded(s@),
        b64url_bytes(s@) == Some(bytes@),
{
    BASE64_URL_SAFE_NO_PAD.encode(bytes)
}

/// `BASE64_URL_SAFE_NO_PAD.decode` (which refuses padding).
#[verifier::external_body]
fn url_safe_decode(text: &str) -> (r: Option<Vec<u8>>)
    ensures
        super::rsa::opt_bytes(r) == b64url_bytes(text@),
{
    BASE64_URL_SAFE_NO_PAD.decode(text).ok()
}

/// `s` without its trailing `=` characters.
pub open spec fn trim_padding(s: Seq<char>) -> Seq<char>
    decreases s.len(),
{
    if s.len() > 0 && s.last() == '=' {
        trim_padding(s.drop_last())
    } else {
        s
    }
}

/// What decoding a JWK member gives: base64url after dropping trailing `=` (some producers
/// still pad).
pub open spec fn member_bytes(s: Seq<char>) -> Option<Seq<u8>> {
    b64url_bytes(trim_padding(s))
}

/// Encodes `bytes` as base64url with no padding (RFC 7515 §2).
pub fn b64url_encode(bytes: &[u8]) -> (s: String)
    ensures
        s@ == b64url_text(bytes@),
        unpadded(s@),
        member_bytes(s@) == Some(bytes@),
{
    let s = url_safe_encode(bytes);
    proof {
        lemma_trim_unpadded(s@);
    }
    s
}

/// Trimming padding leaves unpadded text alone.
pub proof fn lemma_trim_unpadded(s: Seq<char>)
    requires
        unpadded(s),
    ensures
        trim_padding(s) == s,
{
    if s.len() > 0 {
        assert(s[s.len() - 1] != '=');
    }
}

/// Decodes a base64url string, tolerating trailing padding.
pub fn b64url_decode(s: &str) -> (r: Result<Vec<u8>, JwkError>)
    ensures
        r matches Ok(b) ==> member_bytes(s@) == Some(b@),
        r is Err <==> member_bytes(s@) is None,
        r matches Err(e) ==> e == JwkError::InvalidBase64,
{
    let cs = chars_of(s);
    let mut end: usize = cs.len();
    assert(cs@.subrange(0, end as int) =~= cs@);
    while end > 0 && cs[end - 1] == '='
        invariant
            cs@ == s@,
            end <= cs@.len(),
            trim_padding(s@) == trim_padding(cs@.subrange(0, end as int)),
        decreases end,
    {
        assert(cs@.subrange(0, end as int).drop_last() =~= cs@.subrange(0, end - 1));
        end = end - 1;
    }
    let trimmed = s.substring_char(0, end);
    assert(trimmed@ == trim_padding(s@));
    match url_safe_decode(trimmed) {
        Some(b) => Ok(b),
        None => Err(JwkError::InvalidBase64),
    }
}

/// The string view of an optional member.
pub open spec fn member(m: Option<String>) -> Option<Seq<char>> {
    match m {
        Some(s) => Some(s@),
        None => None,
    }
}

/// `kty` is exactly `expected`.
pub open spec fn kty_is(j: Jwk, expected: JwkKty) -> bool {
    member(j.kty) == Some(expected.spec_text())
}

/// Checks `kty`, as the import of a key of that type does.
fn require_kty(jwk: &Jwk, expected: JwkKty) -> (r: Result<(), JwkError>)
    ensures
        r is Ok <==> kty_is(*jwk, expected),
        r matches Err(e) ==> e matches JwkError::WrongKty { expected: x, .. } && x == expected,
{
    let want = expected.name();
    proof {
        reveal_strlit("oct");
        reveal_strlit("RSA");
        reveal_strlit("EC");
    }
    match &jwk.kty {
        Some(k) => {
            if str_equals(k.as_str(), want) {
                Ok(())
            } else {
                Err(JwkError::WrongKty { expected, found: k.clone() })
            }
        },
        None => Err(JwkError::WrongKty { expected, found: String::new() }),
    }
}

/// Decodes a required member.
fn require_member(m: &Option<String>, field: JwkField) -> (r: Result<Vec<u8>, JwkError>)
    ensures
        m is None ==> r == Err::<Vec<u8>, JwkError>(JwkError::MissingField(field)),
        *m matches Some(s) ==> (r matches Ok(b) ==> member_bytes(s@) == Some(b@)),
        *m matches Some(s) ==> (r is Err <==> member_bytes(s@) is None),
        *m matches Some(s) ==> (r matches Err(e) ==> e == JwkError::InvalidBase64),
{
    match m {
        Some(s) => b64url_decode(s.as_str()),
        None => Err(JwkError::MissingField(field)),
    }
}

/// The key bytes an `oct` JWK holds, if it is a well-formed one.
pub open spec fn oct_jwk_bytes(j: Jwk) -> Option<Seq<u8>> {
    if kty_is(j, JwkKty::Oct) && j.k is Some {
        member_bytes(j.k->0@)
    } else {
        None
    }
}

/// The optional `alg` as an owned member.
pub open spec fn alg_member(alg: Option<&str>) -> Option<Seq<char>> {
    match alg {
        Some(a) => Some(a@),
        None => None,
    }
}

fn alg_string(alg: Option<&str>) -> (r: Option<String>)
    ensures
        member(r) == alg_member(alg),
{
    match alg {
        Some(a) => Some(owned(a)),
        None => None,
    }
}

/// A JWK with every member absent.
pub open spec fn no_members(j: Jwk) -> bool {
    &&& j.kty is None && j.alg is None && j.ext is None && j.k is None
    &&& j.n is None && j.e is None && j.d is None && j.p is None && j.q is None
    &&& j.dp is None && j.dq is None && j.qi is None
    &&& j.crv is None && j.x is None && j.y is None
}

fn empty_jwk() -> (j: Jwk)
    ensures
        no_members(j),
{
    Jwk {
        kty: None,
        alg: None,
        ext: None,
        k: None,
        n: None,
        e: None,
        d: None,
        p: None,
        q: None,
        dp: None,
        dq: None,
        qi: None,
        crv: None,
        x: None,
        y: None,
    }
}

fn encode_opt(b: &Option<Vec<u8>>) -> (r: Option<String>)
    ensures
        b is None ==> r is None,
        *b matches Some(v) ==> (r matches Some(s) && s@ == b64url_text(v@) && member_bytes(s@) == Some(v@)),
{
    match b {
        Some(v) => Some(b64url_encode(v)),
        None => None,
    }
}

/// Builds a symmetric (`kty: "oct"`) JWK (RFC 7518 §6.4): `k` is the base64url key, `alg` is
/// set when given, and `ext` records extractability. Reading it back yields the same bytes.
pub fn oct_to_jwk(key_bytes: &[u8], alg_tag: Option<&str>, extractable: bool) -> (j: Jwk)
    ensures
        kty_is(j, JwkKty::Oct),
        j.k matches Some(k) && k@ == b64url_text(key_bytes@) && unpadded(k@),
        member(j.alg) == alg_member(alg_tag),
        j.ext == Some(extractable),
        oct_jwk_bytes(j) == Some(key_bytes@),
{
    let mut j = empty_jwk();
    j.kty = Some(owned(JwkKty::Oct.name()));
    j.k = Some(b64url_encode(key_bytes));
    j.alg = alg_string(alg_tag);
    j.ext = Some(extractable);
    j
}

/// Reads the key bytes out of a symmetric (`kty: "oct"`) JWK.
pub fn oct_from_jwk(jwk: &Jwk) -> (r: Result<Vec<u8>, JwkError>)
    ensures
        r matches Ok(b) ==> oct_jwk_bytes(*jwk) == Some(b@),
        r is Err <==> oct_jwk_bytes(*jwk) is None,
        !kty_is(*jwk, JwkKty::Oct) ==> (r matches Err(e) && e matches JwkError::WrongKty { .. }),
        kty_is(*jwk, JwkKty::Oct) && jwk.k is None ==> r == Err::<Vec<u8>, JwkError>(
            JwkError::MissingField(JwkField::K),
        ),
{
    require_kty(jwk, JwkKty::Oct)?;
    require_member(&jwk.k, JwkField::K)
}

/// `n`/`e`, plus `d`/`p`/`q` for a private key, read off an RSA JWK as raw big-endian bytes.
pub struct RsaJwkFields {
    pub n: Vec<u8>,
    pub e: Vec<u8>,
    pub private: Option<RsaJwkPrivateFields>,
}

/// The private members of an RSA JWK.
pub struct RsaJwkPrivateFields {
    pub d: Vec<u8>,
    pub p: Vec<u8>,
    pub q: Vec<u8>,
}

/// A present member that decodes to `b`.
pub open spec fn member_decodes_to(m: Option<String>, b: Seq<u8>) -> bool {
    m matches Some(s) && member_bytes(s@) == Some(b)
}

/// A present member that decodes.
pub open spec fn member_decodes(m: Option<String>) -> bool {
    m matches Some(s) && member_bytes(s@) is Some
}

/// An RSA JWK the import accepts: `kty` is `"RSA"`, `n`/`e` decode, and when `d` is present
/// so are `p`/`q`, and all three decode.
pub open spec fn rsa_jwk_valid(j: Jwk) -> bool {
    &&& kty_is(j, JwkKty::Rsa)
    &&& member_decodes(j.n)
    &&& member_decodes(j.e)
    &&& (j.d is Some ==> member_decodes(j.d) && member_decodes(j.p) && member_decodes(j.q))
}

/// `f` holds what `j`'s members decode to.
pub open spec fn rsa_fields_of(j: Jwk, f: RsaJwkFields) -> bool {
    &&& member_decodes_to(j.n, f.n@)
    &&& member_decodes_to(j.e, f.e@)
    &&& (j.d is None <==> f.private is None)
    &&& (f.private matches Some(pf) ==> member_decodes_to(j.d, pf.d@) && member_decodes_to(j.p, pf.p@)
        && member_decodes_to(j.q, pf.q@))
}

/// Reads `n`/`e` (and `d`/`p`/`q` when `d` is present) off an RSA JWK.
pub fn rsa_from_jwk(jwk: &Jwk) -> (r: Result<RsaJwkFields, JwkError>)
    ensures
        r is Ok <==> rsa_jwk_valid(*jwk),
        r matches Ok(f) ==> rsa_fields_of(*jwk, f),
        !kty_is(*jwk, JwkKty::Rsa) ==> (r matches Err(e) && e matches JwkError::WrongKty { .. }),
{
    require_kty(jwk, JwkKty::Rsa)?;
    let n = require_member(&jwk.n, JwkField::N)?;
    let e = require_member(&jwk.e, JwkField::E)?;
    match &jwk.d {
        None => Ok(RsaJwkFields { n, e, private: None }),
        Some(d) => {
            let d = b64url_decode(d.as_str())?;
            let p = require_member(&jwk.p, JwkField::P)?;
            let q = require_member(&jwk.q, JwkField::Q)?;
            Ok(RsaJwkFields { n, e, private: Some(RsaJwkPrivateFields { d, p, q }) })
        },
    }
}

/// A present-or-absent byte member encodes to the JWK member.
pub open spec fn encodes_opt(m: Option<String>, b: Option<Vec<u8>>) -> bool {
    &&& (b is None <==> m is None)
    &&& (b matches Some(v) ==> member_decodes_to(m, v@) && m->0@ == b64url_text(v@))
}

/// Builds an RSA (`kty: "RSA"`) JWK (RFC 7518 §6.3) from key components, with `alg` when given.
/// Reading it back yields the same components: the public ones always, and the private ones
/// when `d`, `p` and `q` are all present.
pub fn rsa_to_jwk(components: &RsaComponents, alg_tag: Option<&str>, extractable: bool) -> (j: Jwk)
    ensures
        kty_is(j, JwkKty::Rsa),
        member_decodes_to(j.n, components.n@) && j.n->0@ == b64url_text(components.n@),
        member_decodes_to(j.e, components.e@) && j.e->0@ == b64url_text(components.e@),
        encodes_opt(j.d, components.d) && encodes_opt(j.p, components.p) && encodes_opt(j.q, components.q),
        encodes_opt(j.dp, components.dp) && encodes_opt(j.dq, components.dq) && encodes_opt(j.qi, components.qi),
        member(j.alg) == alg_member(alg_tag),
        j.ext == Some(extractable),
        j.crv is None && j.x is None && j.y is None && j.k is None,
        components.d is None || (components.p is Some && components.q is Some) ==> rsa_jwk_valid(j),
{
    let mut j = empty_jwk();
    j.kty = Some(owned(JwkKty::Rsa.name()));
    j.n = Some(b64url_encode(&components.n));
    j.e = Some(b64url_encode(&components.e));
    j.d = encode_opt(&components.d);
    j.p = encode_opt(&components.p);
    j.q = encode_opt(&components.q);
    j.dp = encode_opt(&components.dp);
    j.dq = encode_opt(&components.dq);
    j.qi = encode_opt(&components.qi);
    j.alg = alg_string(alg_tag);
    j.ext = Some(extractable);
    j
}

/// `crv`/`x`/`y`, plus `d` for a private key, read off an EC JWK (`crv` stays a string; the
/// key import checks it against the requested curve).
pub struct EcJwkFields {
    pub crv: String,
    pub x: Vec<u8>,
    pub y: Vec<u8>,
    pub d: Option<Vec<u8>>,
}

/// An EC JWK the import accepts: `kty` is `"EC"`, `crv` is present, `x`/`y` decode, and `d`
/// decodes when present.
pub open spec fn ec_jwk_valid(j: Jwk) -> bool {
    &&& kty_is(j, JwkKty::Ec)
    &&& j.crv is Some
    &&& member_decodes(j.x)
    &&& member_decodes(j.y)
    &&& (j.d is Some ==> member_decodes(j.d))
}

/// `f` holds what `j`'s members decode to.
pub open spec fn ec_fields_of(j: Jwk, f: EcJwkFields) -> bool {
    &&& member(j.crv) == Some(f.crv@)
    &&& member_decodes_to(j.x, f.x@)
    &&& member_decodes_to(j.y, f.y@)
    &&& (j.d is None <==> f.d is None)
    &&& (f.d matches Some(d) ==> member_decodes_to(j.d, d@))
}

/// Reads `crv`/`x`/`y` (and `d` when present) off an EC JWK.
pub fn ec_from_jwk(jwk: &Jwk) -> (r: Result<EcJwkFields, JwkError>)
    ensures
        r is Ok <==> ec_jwk_valid(*jwk),
        r matches Ok(f) ==> ec_fields_of(*jwk, f),
        !kty_is(*jwk, JwkKty::Ec) ==> (r matches Err(e) && e matches JwkError::WrongKty { .. }),
{
    require_kty(jwk, JwkKty::Ec)?;
    let crv = match &jwk.crv {
        Some(c) => c.clone(),
        None => return Err(JwkError::MissingField(JwkField::Crv)),
    };
    let x = require_member(&jwk.x, JwkField::X)?;
    let y = require_member(&jwk.y, JwkField::Y)?;
    let d = match &jwk.d {
        Some(d) => Some(b64url_decode(d.as_str())?),
        None => None,
    };
    Ok(EcJwkFields { crv, x, y, d })
}

/// Builds an EC (`kty: "EC"`) JWK (RFC 7518 §6.2); EC JWKs carry no `alg`. Reading it back
/// yields the same curve name, coordinates and scalar.
pub fn ec_to_jwk(components: &EcComponents, extractable: bool) -> (j: Jwk)
    ensures
        kty_is(j, JwkKty::Ec),
        member(j.crv) == Some(components.curve.spec_name()),
        member_decodes_to(j.x, components.x@) && j.x->0@ == b64url_text(components.x@),
        member_decodes_to(j.y, components.y@) && j.y->0@ == b64url_text(components.y@),
        encodes_opt(j.d, components.d),
        j.alg is None,
        j.ext == Some(extractable),
        ec_jwk_valid(j),
{
    let mut j = empty_jwk();
    j.kty = Some(owned(JwkKty::Ec.name()));
    j.crv = Some(owned(components.curve.jwk_crv()));
    j.x = Some(b64url_encode(&components.x));
    j.y = Some(b64url_encode(&components.y));
    j.d = encode_opt(&components.d);
    j.ext = Some(extractable);
    j
}

} // verus!
