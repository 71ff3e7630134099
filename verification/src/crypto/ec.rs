//! ECDSA sign/verify, ECDH shared secrets and PKCS#8/SPKI/raw/JWK-component access for
//! P-256/P-384/P-521. Callers translate [`EcError`] into the matching named `DOMException`.
//!
//! A key is held as plain bytes: the private scalar (fixed width, big-endian) with its public
//! point, or the public point alone, always as an uncompressed SEC1 point `0x04 || x || y`.
//! Each operation hands those bytes back to the curve crate, which validates them again.
use vstd::prelude::*;

use p256::ecdsa::signature::hazmat::{PrehashSigner, PrehashVerifier};
use p256::pkcs8::{DecodePrivateKey, DecodePublicKey, EncodePrivateKey, EncodePublicKey};
use rand::rngs::OsRng;

verus! {

/// A `namedCurve` this library supports.
#[derive(Debug, Clone, Copy, PartialEq, Eq, Structural)]
pub enum EcCurve {
    P256,
    P384,
    P521,
}

impl EcCurve {
    /// The curve's `namedCurve`, as a spec.
    pub open spec fn spec_name(self) -> Seq<char> {
        match self {
            EcCurve::P256 => "P-256"@,
            EcCurve::P384 => "P-384"@,
            EcCurve::P521 => "P-521"@,
        }
    }

    /// Looks a curve up by its exact `namedCurve` (`"P-256"`, `"P-384"`, `"P-521"`).
    pub fn from_name(name: &str) -> (r: Option<EcCurve>)
        ensures
            r matches Some(c) ==> c.spec_name() == name@,
            r is None ==> name@ != "P-256"@ && name@ != "P-384"@ && name@ != "P-521"@,
    {
        if crate::text::str_equals(name, "P-256") {
            Some(EcCurve::P256)
        } else if crate::text::str_equals(name, "P-384") {
            Some(EcCurve::P384)
        } else if crate::text::str_equals(name, "P-521") {
            Some(EcCurve::P521)
        } else {
            None
        }
    }

    /// The curve's `namedCurve`.
    pub fn name(self) -> (s: &'static str)
        ensures
            s@ == self.spec_name(),
    {
        match self {
            EcCurve::P256 => "P-256",
            EcCurve::P384 => "P-384",
            EcCurve::P521 => "P-521",
        }
    }

    /// The JWK `crv` value, which RFC 7518 §6.2.1.1 makes the same as the `namedCurve`.
    pub fn jwk_crv(self) -> (s: &'static str)
        ensures
            s@ == self.spec_name(),
    {
        self.name()
    }
}

/// Either half of an EC key pair.
pub enum EcKeyPair {
    /// A private scalar `d` and the public point it determines.
    Private { curve: EcCurve, d: Vec<u8>, point: Vec<u8> },
    /// A public point.
    Public { curve: EcCurve, point: Vec<u8> },
}

/// Why an EC operation was refused.
#[derive(Debug, Clone, Copy, PartialEq, Eq, Structural)]
pub enum EcError {
    /// Key material is malformed (bad SEC1 point, bad scalar, undecodable PKCS#8/SPKI DER, or a
    /// curve/key-kind mismatch between the two sides of an operation).
    InvalidKey,
    /// A sign/derive operation itself failed.
    OperationFailed,
}

/// `SecretKey::<curve>::from_slice(d)`: the canonical scalar bytes and the uncompressed public
/// point, or `None` when `d` is not a valid scalar.
pub uninterp spec fn ec_scalar_private(curve: EcCurve, d: Seq<u8>) -> Option<(Seq<u8>, Seq<u8>)>;

/// `SecretKey::<curve>::from_pkcs8_der`: scalar bytes and uncompressed public point.
pub uninterp spec fn ec_pkcs8_private(curve: EcCurve, der: Seq<u8>) -> Option<(Seq<u8>, Seq<u8>)>;

/// `to_pkcs8_der` of the private key with scalar `d`.
pub uninterp spec fn ec_pkcs8_encoding(curve: EcCurve, d: Seq<u8>) -> Option<Seq<u8>>;

/// `PublicKey::<curve>::from_public_key_der`: the uncompressed public point.
pub uninterp spec fn ec_spki_public(curve: EcCurve, der: Seq<u8>) -> Option<Seq<u8>>;

/// `to_public_key_der` of the public key at `point`.
pub uninterp spec fn ec_spki_encoding(curve: EcCurve, point: Seq<u8>) -> Option<Seq<u8>>;

/// `PublicKey::<curve>::from_sec1_bytes`: the validated point, uncompressed.
pub uninterp spec fn ec_sec1_public(curve: EcCurve, bytes: Seq<u8>) -> Option<Seq<u8>>;

/// The deterministic (RFC 6979) ECDSA signature (`r || s`) of an already-hashed message under
/// scalar `d`, as P-256 and P-384 sign; `None` when the scalar or the prehash is rejected.
/// (P-521 signs with a random nonce and has no such name.)
pub uninterp spec fn ecdsa_prehash_signature(curve: EcCurve, d: Seq<u8>, prehash: Seq<u8>) -> Option<Seq<u8>>;

/// Whether `signature` (`r || s`) is a valid ECDSA signature of `prehash` for `point`.
pub uninterp spec fn ecdsa_prehash_valid(curve: EcCurve, point: Seq<u8>, prehash: Seq<u8>, signature: Seq<u8>) -> bool;

/// The raw ECDH shared secret (x coordinate) of scalar `d` and `point`; `None` when either is
/// rejected.
pub uninterp spec fn ecdh_shared_secret(curve: EcCurve, d: Seq<u8>, point: Seq<u8>) -> Option<Seq<u8>>;

/// The view of an optional byte pair.
pub open spec fn opt_pair(v: Option<(Vec<u8>, Vec<u8>)>) -> Option<(Seq<u8>, Seq<u8>)> {
    match v {
        Some(p) => Some((p.0@, p.1@)),
        None => None,
    }
}

/// The view of optional bytes.
pub open spec fn opt_bytes(v: Option<Vec<u8>>) -> Option<Seq<u8>> {
    match v {
        Some(v) => Some(v@),
        None => None,
    }
}

/// `sig` is an ECDSA signature of `prehash` by the key with scalar `d`: two field elements,
/// accepted by verification under the public point the scalar determines.
pub open spec fn signed_by(curve: EcCurve, d: Seq<u8>, prehash: Seq<u8>, sig: Seq<u8>) -> bool {
    &&& sig.len() == 2 * field_len(curve)
    &&& ec_scalar_private(curve, d) matches Some(k)
    &&& ecdsa_prehash_valid(curve, k.1, prehash, sig)
}

/// `secret` is the ECDH secret of scalar `d` and `point`: one field element, and what the holder
/// of `point`'s scalar gets with `d`'s public point.
pub open spec fn ecdh_agrees(curve: EcCurve, d: Seq<u8>, point: Seq<u8>, secret: Seq<u8>) -> bool {
    &&& secret.len() == field_len(curve)
    &&& ec_scalar_private(curve, d) matches Some(k)
    &&& forall|d2: Seq<u8>|
        #[trigger] ec_scalar_private(curve, d2) matches Some(k2) && k2.1 == point ==> ecdh_shared_secret(curve, d2, k.1)
            == Some(secret)
}

/// The size in bytes of a field element (a coordinate or a scalar) of the curve.
pub open spec fn field_len(curve: EcCurve) -> nat {
    match curve {
        EcCurve::P256 => 32,
        EcCurve::P384 => 48,
        EcCurve::P521 => 66,
    }
}

/// An uncompressed SEC1 point of the curve: the tag `0x04` and two coordinates of the field
/// size. The curve crates write every public key so (`to_sec1_bytes`, with `COMPRESS_POINTS`
/// false for P-256, P-384 and P-521), and a scalar's `to_bytes` is exactly one field element.
pub open spec fn uncompressed_point(curve: EcCurve, p: Seq<u8>) -> bool {
    p.len() == 1 + 2 * field_len(curve) && p[0] == 4u8
}

/// `p256::SecretKey::random` with the OS RNG: a fresh scalar (its canonical bytes) and its
/// public point, as `SecretKey::from_slice` would read them back.
#[verifier::external_body]
fn p256_generate() -> (k: (Vec<u8>, Vec<u8>))
    ensures
        ec_scalar_private(EcCurve::P256, k.0@) == Some((k.0@, k.1@)),
        k.0@.len() == field_len(EcCurve::P256) && uncompressed_point(EcCurve::P256, k.1@),
{
    let sk = p256::SecretKey::random(&mut OsRng);
    (sk.to_bytes().to_vec(), sk.public_key().to_sec1_bytes().to_vec())
}

/// `p256::SecretKey::from_slice`, read back as scalar bytes and public point.
#[verifier::external_body]
fn p256_from_scalar(d: &[u8]) -> (k: Option<(Vec<u8>, Vec<u8>)>)
    ensures
        opt_pair(k) == ec_scalar_private(EcCurve::P256, d@),
        k matches Some(v) ==> v.0@.len() == field_len(EcCurve::P256) && uncompressed_point(EcCurve::P256, v.1@),
{
    let sk = p256::SecretKey::from_slice(d).ok()?;
    Some((sk.to_bytes().to_vec(), sk.public_key().to_sec1_bytes().to_vec()))
}

/// `p256::SecretKey::from_pkcs8_der`, read back as scalar bytes and public point.
#[verifier::external_body]
fn p256_from_pkcs8(der: &[u8]) -> (k: Option<(Vec<u8>, Vec<u8>)>)
    ensures
        opt_pair(k) == ec_pkcs8_private(EcCurve::P256, der@),
        k matches Some(v) ==> v.0@.len() == field_len(EcCurve::P256) && uncompressed_point(EcCurve::P256, v.1@),
{
    let sk = p256::SecretKey::from_pkcs8_der(der).ok()?;
    Some((sk.to_bytes().to_vec(), sk.public_key().to_sec1_bytes().to_vec()))
}

/// `to_pkcs8_der` of `p256::SecretKey::from_slice(d)`.
#[verifier::external_body]
fn p256_to_pkcs8(d: &[u8]) -> (der: Option<Vec<u8>>)
    ensures
        opt_bytes(der) == ec_pkcs8_encoding(EcCurve::P256, d@),
{
    let sk = p256::SecretKey::from_slice(d).ok()?;
    Some(sk.to_pkcs8_der().ok()?.as_bytes().to_vec())
}

/// `p256::PublicKey::from_public_key_der`, read back as an uncompressed point.
#[verifier::external_body]
fn p256_from_spki(der: &[u8]) -> (point: Option<Vec<u8>>)
    ensures
        opt_bytes(point) == ec_spki_public(EcCurve::P256, der@),
        point matches Some(q) ==> uncompressed_point(EcCurve::P256, q@),
{
    let pk = p256::PublicKey::from_public_key_der(der).ok()?;
    Some(pk.to_sec1_bytes().to_vec())
}

/// `to_public_key_der` of `p256::PublicKey::from_sec1_bytes(point)`.
#[verifier::external_body]
fn p256_to_spki(point: &[u8]) -> (der: Option<Vec<u8>>)
    ensures
        opt_bytes(der) == ec_spki_encoding(EcCurve::P256, point@),
{
    let pk = p256::PublicKey::from_sec1_bytes(point).ok()?;
    Some(pk.to_public_key_der().ok()?.as_bytes().to_vec())
}

/// `p256::PublicKey::from_sec1_bytes`, read back as an uncompressed point.
#[verifier::external_body]
fn p256_from_sec1(bytes: &[u8]) -> (point: Option<Vec<u8>>)
    ensures
        opt_bytes(point) == ec_sec1_public(EcCurve::P256, bytes@),
        point matches Some(q) ==> uncompressed_point(EcCurve::P256, q@),
{
    let pk = p256::PublicKey::from_sec1_bytes(bytes).ok()?;
    Some(pk.to_sec1_bytes().to_vec())
}

/// `sign_prehash` of `p256::ecdsa::SigningKey::from_slice(d)` (deterministic, RFC 6979),
/// as `r || s` bytes. The signature is named; like every ECDSA signature it verifies under the
/// signing key's public point.
#[verifier::external_body]
fn p256_sign_prehash(d: &[u8], prehash: &[u8]) -> (sig: Option<Vec<u8>>)
    ensures
        opt_bytes(sig) == ecdsa_prehash_signature(EcCurve::P256, d@, prehash@),
        sig matches Some(s) ==> signed_by(EcCurve::P256, d@, prehash@, s@),
{
    let key = p256::ecdsa::SigningKey::from_slice(d).ok()?;
    let sig: p256::ecdsa::Signature = key.sign_prehash(prehash).ok()?;
    Some(sig.to_vec())
}

/// `verify_prehash` of `p256::ecdsa::VerifyingKey::from_sec1_bytes(point)` on the signature
/// parsed by `Signature::from_slice`; `false` when either doesn't parse.
#[verifier::external_body]
fn p256_verify_prehash(point: &[u8], prehash: &[u8], signature: &[u8]) -> (ok: bool)
    ensures
        ok == ecdsa_prehash_valid(EcCurve::P256, point@, prehash@, signature@),
{
    let Ok(sig) = p256::ecdsa::Signature::from_slice(signature) else { return false };
    let Ok(key) = p256::ecdsa::VerifyingKey::from_sec1_bytes(point) else { return false };
    key.verify_prehash(prehash, &sig).is_ok()
}

/// `p256::ecdh::diffie_hellman` of the scalar and point, as raw secret bytes (the x
/// coordinate of `d * point`, so both parties of an exchange get the same secret).
#[verifier::external_body]
fn p256_ecdh(d: &[u8], point: &[u8]) -> (secret: Option<Vec<u8>>)
    ensures
        opt_bytes(secret) == ecdh_shared_secret(EcCurve::P256, d@, point@),
        secret matches Some(s) ==> ecdh_agrees(EcCurve::P256, d@, point@, s@),
{
    let sk = p256::SecretKey::from_slice(d).ok()?;
    let pk = p256::PublicKey::from_sec1_bytes(point).ok()?;
    Some(p256::ecdh::diffie_hellman(sk.to_nonzero_scalar(), pk.as_affine()).raw_secret_bytes().to_vec())
}

/// `p384::SecretKey::random` with the OS RNG: a fresh scalar (its canonical bytes) and its
/// public point, as `SecretKey::from_slice` would read them back.
#[verifier::external_body]
fn p384_generate() -> (k: (Vec<u8>, Vec<u8>))
    ensures
        ec_scalar_private(EcCurve::P384, k.0@) == Some((k.0@, k.1@)),
        k.0@.len() == field_len(EcCurve::P384) && uncompressed_point(EcCurve::P384, k.1@),
{
    let sk = p384::SecretKey::random(&mut OsRng);
    (sk.to_bytes().to_vec(), sk.public_key().to_sec1_bytes().to_vec())
}

/// `p384::SecretKey::from_slice`, read back as scalar bytes and public point.
#[verifier::external_body]
fn p384_from_scalar(d: &[u8]) -> (k: Option<(Vec<u8>, Vec<u8>)>)
    ensures
        opt_pair(k) == ec_scalar_private(EcCurve::P384, d@),
        k matches Some(v) ==> v.0@.len() == field_len(EcCurve::P384) && uncompressed_point(EcCurve::P384, v.1@),
{
    let sk = p384::SecretKey::from_slice(d).ok()?;
    Some((sk.to_bytes().to_vec(), sk.public_key().to_sec1_bytes().to_vec()))
}

/// `p384::SecretKey::from_pkcs8_der`, read back as scalar bytes and public point.
#[verifier::external_body]
fn p384_from_pkcs8(der: &[u8]) -> (k: Option<(Vec<u8>, Vec<u8>)>)
    ensures
        opt_pair(k) == ec_pkcs8_private(EcCurve::P384, der@),
        k matches Some(v) ==> v.0@.len() == field_len(EcCurve::P384) && uncompressed_point(EcCurve::P384, v.1@),
{
    let sk = p384::SecretKey::from_pkcs8_der(der).ok()?;
    Some((sk.to_bytes().to_vec(), sk.public_key().to_sec1_bytes().to_vec()))
}

/// `to_pkcs8_der` of `p384::SecretKey::from_slice(d)`.
#[verifier::external_body]
fn p384_to_pkcs8(d: &[u8]) -> (der: Option<Vec<u8>>)
    ensures
        opt_bytes(der) == ec_pkcs8_encoding(EcCurve::P384, d@),
{
    let sk = p384::SecretKey::from_slice(d).ok()?;
    Some(sk.to_pkcs8_der().ok()?.as_bytes().to_vec())
}

/// `p384::PublicKey::from_public_key_der`, read back as an uncompressed point.
#[verifier::external_body]
fn p384_from_spki(der: &[u8]) -> (point: Option<Vec<u8>>)
    ensures
        opt_bytes(point) == ec_spki_public(EcCurve::P384, der@),
        point matches Some(q) ==> uncompressed_point(EcCurve::P384, q@),
{
    let pk = p384::PublicKey::from_public_key_der(der).ok()?;
    Some(pk.to_sec1_bytes().to_vec())
}

/// `to_public_key_der` of `p384::PublicKey::from_sec1_bytes(point)`.
#[verifier::external_body]
fn p384_to_spki(point: &[u8]) -> (der: Option<Vec<u8>>)
    ensures
        opt_bytes(der) == ec_spki_encoding(EcCurve::P384, point@),
{
    let pk = p384::PublicKey::from_sec1_bytes(point).ok()?;
    Some(pk.to_public_key_der().ok()?.as_bytes().to_vec())
}

/// `p384::PublicKey::from_sec1_bytes`, read back as an uncompressed point.
#[verifier::external_body]
fn p384_from_sec1(bytes: &[u8]) -> (point: Option<Vec<u8>>)
    ensures
        opt_bytes(point) == ec_sec1_public(EcCurve::P384, bytes@),
        point matches Some(q) ==> uncompressed_point(EcCurve::P384, q@),
{
    let pk = p384::PublicKey::from_sec1_bytes(bytes).ok()?;
    Some(pk.to_sec1_bytes().to_vec())
}

/// `sign_prehash` of `p384::ecdsa::SigningKey::from_slice(d)` (deterministic, RFC 6979),
/// as `r || s` bytes. The signature is named; like every ECDSA signature it verifies under the
/// signing key's public point.
#[verifier::external_body]
fn p384_sign_prehash(d: &[u8], prehash: &[u8]) -> (sig: Option<Vec<u8>>)
    ensures
        opt_bytes(sig) == ecdsa_prehash_signature(EcCurve::P384, d@, prehash@),
        sig matches Some(s) ==> signed_by(EcCurve::P384, d@, prehash@, s@),
{
    let key = p384::ecdsa::SigningKey::from_slice(d).ok()?;
    let sig: p384::ecdsa::Signature = key.sign_prehash(prehash).ok()?;
    Some(sig.to_vec())
}

/// `verify_prehash` of `p384::ecdsa::VerifyingKey::from_sec1_bytes(point)` on the signature
/// parsed by `Signature::from_slice`; `false` when either doesn't parse.
#[verifier::external_body]
fn p384_verify_prehash(point: &[u8], prehash: &[u8], signature: &[u8]) -> (ok: bool)
    ensures
        ok == ecdsa_prehash_valid(EcCurve::P384, point@, prehash@, signature@),
{
    let Ok(sig) = p384::ecdsa::Signature::from_slice(signature) else { return false };
    let Ok(key) = p384::ecdsa::VerifyingKey::from_sec1_bytes(point) else { return false };
    key.verify_prehash(prehash, &sig).is_ok()
}

/// `p384::ecdh::diffie_hellman` of the scalar and point, as raw secret bytes (the x
/// coordinate of `d * point`, so both parties of an exchange get the same secret).
#[verifier::external_body]
fn p384_ecdh(d: &[u8], point: &[u8]) -> (secret: Option<Vec<u8>>)
    ensures
        opt_bytes(secret) == ecdh_shared_secret(EcCurve::P384, d@, point@),
        secret matches Some(s) ==> ecdh_agrees(EcCurve::P384, d@, point@, s@),
{
    let sk = p384::SecretKey::from_slice(d).ok()?;
    let pk = p384::PublicKey::from_sec1_bytes(point).ok()?;
    Some(p384::ecdh::diffie_hellman(sk.to_nonzero_scalar(), pk.as_affine()).raw_secret_bytes().to_vec())
}

/// `p521::SecretKey::random` with the OS RNG: a fresh scalar (its canonical bytes) and its
/// public point, as `SecretKey::from_slice` would read them back.
#[verifier::external_body]
fn p521_generate() -> (k: (Vec<u8>, Vec<u8>))
    ensures
        ec_scalar_private(EcCurve::P521, k.0@) == Some((k.0@, k.1@)),
        k.0@.len() == field_len(EcCurve::P521) && uncompressed_point(EcCurve::P521, k.1@),
{
    let sk = p521::SecretKey::random(&mut OsRng);
    (sk.to_bytes().to_vec(), sk.public_key().to_sec1_bytes().to_vec())
}

/// `p521::SecretKey::from_slice`, read back as scalar bytes and public point.
#[verifier::external_body]
fn p521_from_scalar(d: &[u8]) -> (k: Option<(Vec<u8>, Vec<u8>)>)
    ensures
        opt_pair(k) == ec_scalar_private(EcCurve::P521, d@),
        k matches Some(v) ==> v.0@.len() == field_len(EcCurve::P521) && uncompressed_point(EcCurve::P521, v.1@),
{
    let sk = p521::SecretKey::from_slice(d).ok()?;
    Some((sk.to_bytes().to_vec(), sk.public_key().to_sec1_bytes().to_vec()))
}

/// `p521::SecretKey::from_pkcs8_der`, read back as scalar bytes and public point.
#[verifier::external_body]
fn p521_from_pkcs8(der: &[u8]) -> (k: Option<(Vec<u8>, Vec<u8>)>)
    ensures
        opt_pair(k) == ec_pkcs8_private(EcCurve::P521, der@),
        k matches Some(v) ==> v.0@.len() == field_len(EcCurve::P521) && uncompressed_point(EcCurve::P521, v.1@),
{
    let sk = p521::SecretKey::from_pkcs8_der(der).ok()?;
    Some((sk.to_bytes().to_vec(), sk.public_key().to_sec1_bytes().to_vec()))
}

/// `to_pkcs8_der` of `p521::SecretKey::from_slice(d)`.
#[verifier::external_body]
fn p521_to_pkcs8(d: &[u8]) -> (der: Option<Vec<u8>>)
    ensures
        opt_bytes(der) == ec_pkcs8_encoding(EcCurve::P521, d@),
{
    let sk = p521::SecretKey::from_slice(d).ok()?;
    Some(sk.to_pkcs8_der().ok()?.as_bytes().to_vec())
}

/// `p521::PublicKey::from_public_key_der`, read back as an uncompressed point.
#[verifier::external_body]
fn p521_from_spki(der: &[u8]) -> (point: Option<Vec<u8>>)
    ensures
        opt_bytes(point) == ec_spki_public(EcCurve::P521, der@),
        point matches Some(q) ==> uncompressed_point(EcCurve::P521, q@),
{
    let pk = p521::PublicKey::from_public_key_der(der).ok()?;
    Some(pk.to_sec1_bytes().to_vec())
}

/// `to_public_key_der` of `p521::PublicKey::from_sec1_bytes(point)`.
#[verifier::external_body]
fn p521_to_spki(point: &[u8]) -> (der: Option<Vec<u8>>)
    ensures
        opt_bytes(der) == ec_spki_encoding(EcCurve::P521, point@),
{
    let pk = p521::PublicKey::from_sec1_bytes(point).ok()?;
    Some(pk.to_public_key_der().ok()?.as_bytes().to_vec())
}

/// `p521::PublicKey::from_sec1_bytes`, read back as an uncompressed point.
#[verifier::external_body]
fn p521_from_sec1(bytes: &[u8]) -> (point: Option<Vec<u8>>)
    ensures
        opt_bytes(point) == ec_sec1_public(EcCurve::P521, bytes@),
        point matches Some(q) ==> uncompressed_point(EcCurve::P521, q@),
{
    let pk = p521::PublicKey::from_sec1_bytes(bytes).ok()?;
    Some(pk.to_sec1_bytes().to_vec())
}

/// `sign_prehash` of `p521::ecdsa::SigningKey::from_slice(d)`, as `r || s` bytes. The p521
/// crate draws the nonce from the OS RNG, so which signature comes back is not stated: only that
/// it verifies under the signing key's public point, and that a rejected scalar gives none.
#[verifier::external_body]
fn p521_sign_prehash(d: &[u8], prehash: &[u8]) -> (sig: Option<Vec<u8>>)
    ensures
        sig matches Some(s) ==> signed_by(EcCurve::P521, d@, prehash@, s@),
        ec_scalar_private(EcCurve::P521, d@) is None ==> sig is None,
{
    let key = p521::ecdsa::SigningKey::from_slice(d).ok()?;
    let sig: p521::ecdsa::Signature = key.sign_prehash(prehash).ok()?;
    Some(sig.to_vec())
}

/// `verify_prehash` of `p521::ecdsa::VerifyingKey::from_sec1_bytes(point)` on the signature
/// parsed by `Signature::from_slice`; `false` when either doesn't parse.
#[verifier::external_body]
fn p521_verify_prehash(point: &[u8], prehash: &[u8], signature: &[u8]) -> (ok: bool)
    ensures
        ok == ecdsa_prehash_valid(EcCurve::P521, point@, prehash@, signature@),
{
    let Ok(sig) = p521::ecdsa::Signature::from_slice(signature) else { return false };
    let Ok(key) = p521::ecdsa::VerifyingKey::from_sec1_bytes(point) else { return false };
    key.verify_prehash(prehash, &sig).is_ok()
}

/// `p521::ecdh::diffie_hellman` of the scalar and point, as raw secret bytes (the x
/// coordinate of `d * point`, so both parties of an exchange get the same secret).
#[verifier::external_body]
fn p521_ecdh(d: &[u8], point: &[u8]) -> (secret: Option<Vec<u8>>)
    ensures
        opt_bytes(secret) == ecdh_shared_secret(EcCurve::P521, d@, point@),
        secret matches Some(s) ==> ecdh_agrees(EcCurve::P521, d@, point@, s@),
{
    let sk = p521::SecretKey::from_slice(d).ok()?;
    let pk = p521::PublicKey::from_sec1_bytes(point).ok()?;
    Some(p521::ecdh::diffie_hellman(sk.to_nonzero_scalar(), pk.as_affine()).raw_secret_bytes().to_vec())
}

// ---------------------------------------------------------------------------------------------
// Per-curve dispatch
// ---------------------------------------------------------------------------------------------

fn generate_scalar(curve: EcCurve) -> (k: (Vec<u8>, Vec<u8>))
    ensures
        ec_scalar_private(curve, k.0@) == Some((k.0@, k.1@)),
        k.0@.len() == field_len(curve) && uncompressed_point(curve, k.1@),
{
    match curve {
        EcCurve::P256 => p256_generate(),
        EcCurve::P384 => p384_generate(),
        EcCurve::P521 => p521_generate(),
    }
}

fn scalar_private(curve: EcCurve, d: &[u8]) -> (k: Option<(Vec<u8>, Vec<u8>)>)
    ensures
        opt_pair(k) == ec_scalar_private(curve, d@),
        k matches Some(v) ==> v.0@.len() == field_len(curve) && uncompressed_point(curve, v.1@),
{
    match curve {
        EcCurve::P256 => p256_from_scalar(d),
        EcCurve::P384 => p384_from_scalar(d),
        EcCurve::P521 => p521_from_scalar(d),
    }
}

fn pkcs8_private(curve: EcCurve, der: &[u8]) -> (k: Option<(Vec<u8>, Vec<u8>)>)
    ensures
        opt_pair(k) == ec_pkcs8_private(curve, der@),
        k matches Some(v) ==> v.0@.len() == field_len(curve) && uncompressed_point(curve, v.1@),
{
    match curve {
        EcCurve::P256 => p256_from_pkcs8(der),
        EcCurve::P384 => p384_from_pkcs8(der),
        EcCurve::P521 => p521_from_pkcs8(der),
    }
}

fn pkcs8_encoding(curve: EcCurve, d: &[u8]) -> (der: Option<Vec<u8>>)
    ensures
        opt_bytes(der) == ec_pkcs8_encoding(curve, d@),
{
    match curve {
        EcCurve::P256 => p256_to_pkcs8(d),
        EcCurve::P384 => p384_to_pkcs8(d),
        EcCurve::P521 => p521_to_pkcs8(d),
    }
}

fn spki_public(curve: EcCurve, der: &[u8]) -> (point: Option<Vec<u8>>)
    ensures
        opt_bytes(point) == ec_spki_public(curve, der@),
        point matches Some(q) ==> uncompressed_point(curve, q@),
{
    match curve {
        EcCurve::P256 => p256_from_spki(der),
        EcCurve::P384 => p384_from_spki(der),
        EcCurve::P521 => p521_from_spki(der),
    }
}

fn spki_encoding(curve: EcCurve, point: &[u8]) -> (der: Option<Vec<u8>>)
    ensures
        opt_bytes(der) == ec_spki_encoding(curve, point@),
{
    match curve {
        EcCurve::P256 => p256_to_spki(point),
        EcCurve::P384 => p384_to_spki(point),
        EcCurve::P521 => p521_to_spki(point),
    }
}

fn sec1_public(curve: EcCurve, bytes: &[u8]) -> (point: Option<Vec<u8>>)
    ensures
        opt_bytes(point) == ec_sec1_public(curve, bytes@),
        point matches Some(q) ==> uncompressed_point(curve, q@),
{
    match curve {
        EcCurve::P256 => p256_from_sec1(bytes),
        EcCurve::P384 => p384_from_sec1(bytes),
        EcCurve::P521 => p521_from_sec1(bytes),
    }
}

// ---------------------------------------------------------------------------------------------
// The library's EC operations
// ---------------------------------------------------------------------------------------------

impl EcKeyPair {
    /// The curve of either half.
    pub open spec fn curve_of(self) -> EcCurve {
        match self {
            EcKeyPair::Private { curve, .. } => curve,
            EcKeyPair::Public { curve, .. } => curve,
        }
    }

    /// The public point of either half.
    pub open spec fn point_of(self) -> Seq<u8> {
        match self {
            EcKeyPair::Private { point, .. } => point@,
            EcKeyPair::Public { point, .. } => point@,
        }
    }

    /// The curve the key lives on.
    pub fn curve(&self) -> (c: EcCurve)
        ensures
            c == self.curve_of(),
    {
        match self {
            EcKeyPair::Private { curve, .. } => *curve,
            EcKeyPair::Public { curve, .. } => *curve,
        }
    }

    /// Whether this is the private half.
    pub fn is_private(&self) -> (b: bool)
        ensures
            b == (self is Private),
    {
        match self {
            EcKeyPair::Private { .. } => true,
            EcKeyPair::Public { .. } => false,
        }
    }
}

/// A key as the curve crates give it: its point uncompressed and, for the private half, its
/// scalar one field element long. Every key this module makes is so.
pub open spec fn ec_key_wf(k: EcKeyPair) -> bool {
    &&& uncompressed_point(k.curve_of(), k.point_of())
    &&& (k matches EcKeyPair::Private { curve, d, .. } ==> d@.len() == field_len(curve))
}

/// `k` is the public half on `curve` at `point`.
pub open spec fn is_public_key(k: EcKeyPair, curve: EcCurve, point: Seq<u8>) -> bool {
    k matches EcKeyPair::Public { curve: c, point: kp } && c == curve && kp@ == point
}

/// Generates a fresh key pair on `curve`: a random scalar, and the public half at the point it
/// determines.
pub fn generate_keypair(curve: EcCurve) -> (r: (EcKeyPair, EcKeyPair))
    ensures
        r.0 matches EcKeyPair::Private { curve: c, d, point } && c == curve
            && ec_scalar_private(curve, d@) == Some((d@, point@))
            && is_public_key(r.1, curve, point@),
        ec_key_wf(r.0) && ec_key_wf(r.1),
{
    let (d, point) = generate_scalar(curve);
    let public = EcKeyPair::Public { curve, point: point.clone() };
    (EcKeyPair::Private { curve, d, point }, public)
}

/// The shortest prehash the curve's ECDSA accepts: half its field size in bytes.
pub open spec fn min_prehash_len(curve: EcCurve) -> nat {
    match curve {
        EcCurve::P256 => 16,
        EcCurve::P384 => 24,
        EcCurve::P521 => 33,
    }
}

/// A prehash as handed to ECDSA: one shorter than the curve's minimum is left-padded with zero
/// bytes, which leaves the integer it denotes unchanged (so a SHA-256 digest can sign with
/// P-521).
pub open spec fn widened_prehash(curve: EcCurve, prehash: Seq<u8>) -> Seq<u8> {
    if prehash.len() < min_prehash_len(curve) {
        Seq::new((min_prehash_len(curve) - prehash.len()) as nat, |i: int| 0u8) + prehash
    } else {
        prehash
    }
}

fn widen_prehash(curve: EcCurve, prehash: &[u8]) -> (r: Vec<u8>)
    ensures
        r@ == widened_prehash(curve, prehash@),
{
    let min: usize = match curve {
        EcCurve::P256 => 16,
        EcCurve::P384 => 24,
        EcCurve::P521 => 33,
    };
    let mut out: Vec<u8> = Vec::new();
    if prehash.len() < min {
        let pad = min - prehash.len();
        let mut i: usize = 0;
        while i < pad
            invariant
                i <= pad,
                out@ == Seq::new(i as nat, |k: int| 0u8),
            decreases pad - i,
        {
            out.push(0u8);
            i = i + 1;
            assert(out@ =~= Seq::new(i as nat, |k: int| 0u8));
        }
    }
    let ghost start = out@;
    let mut j: usize = 0;
    while j < prehash.len()
        invariant
            j <= prehash@.len(),
            out@ == start + prehash@.subrange(0, j as int),
        decreases prehash.len() - j,
    {
        out.push(prehash[j]);
        j = j + 1;
        assert(out@ =~= start + prehash@.subrange(0, j as int));
    }
    assert(prehash@.subrange(0, prehash@.len() as int) =~= prehash@);
    assert(out@ =~= widened_prehash(curve, prehash@));
    out
}

/// Signs an already-hashed message; a public key is [`EcError::InvalidKey`], a rejected
/// scalar or prehash is [`EcError::OperationFailed`]. Every signature made verifies under the
/// key's public point; P-256 and P-384 sign deterministically (RFC 6979), P-521 with a random
/// nonce.
pub fn ecdsa_sign(key: &EcKeyPair, prehash: &[u8]) -> (r: Result<Vec<u8>, EcError>)
    ensures
        key is Public ==> r == Err::<Vec<u8>, EcError>(EcError::InvalidKey),
        *key matches EcKeyPair::Private { curve, d, .. } ==> {
            &&& (r matches Ok(sig) ==> signed_by(curve, d@, widened_prehash(curve, prehash@), sig@))
            &&& (r matches Err(e) ==> e == EcError::OperationFailed)
            &&& (ec_scalar_private(curve, d@) is None ==> r is Err)
        },
        *key matches EcKeyPair::Private { curve, d, .. } ==> (curve != EcCurve::P521 ==> {
            &&& (r matches Ok(sig) ==> ecdsa_prehash_signature(curve, d@, widened_prehash(curve, prehash@)) == Some(sig@))
            &&& (r is Err <==> ecdsa_prehash_signature(curve, d@, widened_prehash(curve, prehash@)) is None)
        }),
{
    match key {
        EcKeyPair::Private { curve, d, .. } => {
            let z = widen_prehash(*curve, prehash);
            let sig = match curve {
                EcCurve::P256 => p256_sign_prehash(d, &z),
                EcCurve::P384 => p384_sign_prehash(d, &z),
                EcCurve::P521 => p521_sign_prehash(d, &z),
            };
            match sig {
                Some(sig) => Ok(sig),
                None => Err(EcError::OperationFailed),
            }
        },
        EcKeyPair::Public { .. } => Err(EcError::InvalidKey),
    }
}

/// Checks an ECDSA signature of an already-hashed message; a private key never verifies.
pub fn ecdsa_verify(key: &EcKeyPair, prehash: &[u8], signature: &[u8]) -> (ok: bool)
    ensures
        key is Private ==> !ok,
        *key matches EcKeyPair::Public { curve, point } ==> ok == ecdsa_prehash_valid(
            curve,
            point@,
            widened_prehash(curve, prehash@),
            signature@,
        ),
{
    match key {
        EcKeyPair::Public { curve, point } => {
            let z = widen_prehash(*curve, prehash);
            match curve {
                EcCurve::P256 => p256_verify_prehash(point, &z, signature),
                EcCurve::P384 => p384_verify_prehash(point, &z, signature),
                EcCurve::P521 => p521_verify_prehash(point, &z, signature),
            }
        },
        EcKeyPair::Private { .. } => false,
    }
}

/// The raw ECDH shared secret of a private key and a public key on the same curve; any other
/// combination, or material the curve crate rejects, is [`EcError::InvalidKey`].
pub fn ecdh_derive_bits(private: &EcKeyPair, public: &EcKeyPair) -> (r: Result<Vec<u8>, EcError>)
    ensures
        (private is Private && public is Public && private.curve_of() == public.curve_of()) ==> {
            let secret = ecdh_shared_secret(private.curve_of(), private->d@, public->Public_point@);
            &&& (r matches Ok(s) ==> secret == Some(s@))
            &&& (r is Err <==> secret is None)
            &&& (r matches Ok(s) ==> ecdh_agrees(private.curve_of(), private->d@, public->Public_point@, s@))
        },
        !(private is Private && public is Public && private.curve_of() == public.curve_of()) ==> r is Err,
        r matches Err(e) ==> e == EcError::InvalidKey,
{
    match (private, public) {
        (EcKeyPair::Private { curve: c1, d, .. }, EcKeyPair::Public { curve: c2, point }) => {
            if *c1 != *c2 {
                return Err(EcError::InvalidKey);
            }
            let secret = match c1 {
                EcCurve::P256 => p256_ecdh(d, point),
                EcCurve::P384 => p384_ecdh(d, point),
                EcCurve::P521 => p521_ecdh(d, point),
            };
            match secret {
                Some(s) => Ok(s),
                None => Err(EcError::InvalidKey),
            }
        },
        _ => Err(EcError::InvalidKey),
    }
}

/// ECDH agreement: when the holder of scalar `da` (public point `pa`) derives `s` from the
/// point `pb` of scalar `db`, the holder of `db` derives the same `s` from `pa`.
pub proof fn ecdh_agreement(curve: EcCurve, da: Seq<u8>, pa: Seq<u8>, db: Seq<u8>, pb: Seq<u8>, s: Seq<u8>)
    requires
        ec_scalar_private(curve, da) == Some((da, pa)),
        ec_scalar_private(curve, db) == Some((db, pb)),
        ecdh_agrees(curve, da, pb, s),
    ensures
        ecdh_shared_secret(curve, db, pa) == Some(s),
{
    assert(ec_scalar_private(curve, db) matches Some(k2) && k2.1 == pb);
}

/// The uncompressed SEC1 point (`0x04 || x || y`), WebCrypto's `"raw"` format for EC public
/// keys; a private key is [`EcError::InvalidKey`].
pub fn public_key_to_raw(key: &EcKeyPair) -> (r: Result<Vec<u8>, EcError>)
    ensures
        *key matches EcKeyPair::Public { point, .. } ==> (r matches Ok(v) && v@ == point@),
        key is Private ==> r == Err::<Vec<u8>, EcError>(EcError::InvalidKey),
{
    match key {
        EcKeyPair::Public { point, .. } => Ok(point.clone()),
        EcKeyPair::Private { .. } => Err(EcError::InvalidKey),
    }
}

/// Imports a public key from SEC1 bytes (compressed or uncompressed).
pub fn public_key_from_raw(curve: EcCurve, bytes: &[u8]) -> (r: Result<EcKeyPair, EcError>)
    ensures
        r matches Ok(k) ==> ec_key_wf(k),
        r matches Ok(k) ==> ec_sec1_public(curve, bytes@) == Some(k.point_of()) && is_public_key(k, curve, k.point_of()),
        r is Err <==> ec_sec1_public(curve, bytes@) is None,
        r matches Err(e) ==> e == EcError::InvalidKey,
{
    match sec1_public(curve, bytes) {
        Some(point) => Ok(EcKeyPair::Public { curve, point }),
        None => Err(EcError::InvalidKey),
    }
}

/// PKCS#8 DER of a private key; a public key is [`EcError::InvalidKey`].
pub fn to_pkcs8_der(key: &EcKeyPair) -> (r: Result<Vec<u8>, EcError>)
    ensures
        *key matches EcKeyPair::Private { curve, d, .. } ==> {
            &&& (r matches Ok(der) ==> ec_pkcs8_encoding(curve, d@) == Some(der@))
            &&& (r is Err <==> ec_pkcs8_encoding(curve, d@) is None)
        },
        key is Public ==> r is Err,
        r matches Err(e) ==> e == EcError::InvalidKey,
{
    match key {
        EcKeyPair::Private { curve, d, .. } => match pkcs8_encoding(*curve, d) {
            Some(der) => Ok(der),
            None => Err(EcError::InvalidKey),
        },
        EcKeyPair::Public { .. } => Err(EcError::InvalidKey),
    }
}

/// Parses a PKCS#8 DER private key for `curve`.
pub fn from_pkcs8_der(curve: EcCurve, bytes: &[u8]) -> (r: Result<EcKeyPair, EcError>)
    ensures
        r matches Ok(k) ==> ec_key_wf(k),
        r matches Ok(k) ==> (k matches EcKeyPair::Private { curve: c, d, point } && c == curve
            && ec_pkcs8_private(curve, bytes@) == Some((d@, point@))),
        r is Err <==> ec_pkcs8_private(curve, bytes@) is None,
        r matches Err(e) ==> e == EcError::InvalidKey,
{
    match pkcs8_private(curve, bytes) {
        Some((d, point)) => Ok(EcKeyPair::Private { curve, d, point }),
        None => Err(EcError::InvalidKey),
    }
}

/// SubjectPublicKeyInfo DER of a public key; a private key is [`EcError::InvalidKey`].
pub fn to_spki_der(key: &EcKeyPair) -> (r: Result<Vec<u8>, EcError>)
    ensures
        *key matches EcKeyPair::Public { curve, point } ==> {
            &&& (r matches Ok(der) ==> ec_spki_encoding(curve, point@) == Some(der@))
            &&& (r is Err <==> ec_spki_encoding(curve, point@) is None)
        },
        key is Private ==> r is Err,
        r matches Err(e) ==> e == EcError::InvalidKey,
{
    match key {
        EcKeyPair::Public { curve, point } => match spki_encoding(*curve, point) {
            Some(der) => Ok(der),
            None => Err(EcError::InvalidKey),
        },
        EcKeyPair::Private { .. } => Err(EcError::InvalidKey),
    }
}

/// Parses a SubjectPublicKeyInfo DER public key for `curve`.
pub fn from_spki_der(curve: EcCurve, bytes: &[u8]) -> (r: Result<EcKeyPair, EcError>)
    ensures
        r matches Ok(k) ==> ec_key_wf(k),
        r matches Ok(k) ==> ec_spki_public(curve, bytes@) == Some(k.point_of()) && is_public_key(k, curve, k.point_of()),
        r is Err <==> ec_spki_public(curve, bytes@) is None,
        r matches Err(e) ==> e == EcError::InvalidKey,
{
    match spki_public(curve, bytes) {
        Some(point) => Ok(EcKeyPair::Public { curve, point }),
        None => Err(EcError::InvalidKey),
    }
}

/// `crv`/`x`/`y`, plus `d` for a private key, for JWK export (RFC 7518 §6.2).
pub struct EcComponents {
    pub curve: EcCurve,
    pub x: Vec<u8>,
    pub y: Vec<u8>,
    pub d: Option<Vec<u8>>,
}

/// The two coordinates of an uncompressed SEC1 point `0x04 || x || y`: after the tag byte, the
/// first half of the remaining bytes and the rest.
pub open spec fn sec1_coordinates(bytes: Seq<u8>) -> (Seq<u8>, Seq<u8>) {
    if bytes.len() == 0 {
        (Seq::empty(), Seq::empty())
    } else {
        let c = (bytes.len() - 1) / 2;
        (bytes.subrange(1, 1 + c), bytes.subrange(1 + c, bytes.len() as int))
    }
}

/// Splits an uncompressed SEC1 point (`0x04 || x || y`) into its two equal-length coordinates.
fn split_sec1_point(bytes: &[u8]) -> (r: (Vec<u8>, Vec<u8>))
    ensures
        (r.0@, r.1@) == sec1_coordinates(bytes@),
{
    if bytes.len() == 0 {
        return (Vec::new(), Vec::new());
    }
    let c: usize = (bytes.len() - 1) / 2;
    let mut x: Vec<u8> = Vec::new();
    let mut y: Vec<u8> = Vec::new();
    let mut i: usize = 1;
    while i < bytes.len()
        invariant
            c == (bytes@.len() - 1) / 2,
            1 <= i <= bytes@.len(),
            i <= 1 + c ==> x@ == bytes@.subrange(1, i as int) && y@.len() == 0,
            i > 1 + c ==> x@ == bytes@.subrange(1, 1 + c) && y@ == bytes@.subrange(1 + c, i as int),
        decreases bytes.len() - i,
    {
        if i < 1 + c {
            x.push(bytes[i]);
        } else {
            y.push(bytes[i]);
        }
        i = i + 1;
    }
    (x, y)
}

/// The point `0x04 || x || y`.
pub open spec fn sec1_join(x: Seq<u8>, y: Seq<u8>) -> Seq<u8> {
    seq![4u8] + x + y
}

/// Splitting a joined point gives back its coordinates when they have equal length, so JWK
/// export of a key imported from `x`/`y` hands back the same `x`/`y`.
pub proof fn lemma_split_inverts_join(x: Seq<u8>, y: Seq<u8>)
    requires
        x.len() == y.len(),
    ensures
        sec1_coordinates(sec1_join(x, y)) == (x, y),
{
    let p = sec1_join(x, y);
    assert(p.subrange(1, 1 + x.len() as int) =~= x);
    assert(p.subrange(1 + x.len() as int, p.len() as int) =~= y);
}

/// `k`'s components: the curve, the point's coordinates, and the scalar for a private key.
pub open spec fn components_of(c: EcComponents, k: EcKeyPair) -> bool {
    &&& c.curve == k.curve_of()
    &&& (c.x@, c.y@) == sec1_coordinates(k.point_of())
    &&& (k matches EcKeyPair::Private { d, .. } ==> (c.d matches Some(cd) && cd@ == d@))
    &&& (k is Public ==> c.d is None)
}

/// JWK components of either half. For a key as the curve crates give it, `x`, `y` (and `d`)
/// are one field element each (32, 48 or 66 bytes) and `0x04 || x || y` is the point.
pub fn components(key: &EcKeyPair) -> (c: EcComponents)
    ensures
        components_of(c, *key),
        ec_key_wf(*key) ==> c.x@.len() == field_len(key.curve_of()) && c.y@.len() == field_len(key.curve_of())
            && sec1_join(c.x@, c.y@) == key.point_of() && (c.d matches Some(d) ==> d@.len() == field_len(
            key.curve_of(),
        )),
{
    proof {
        if ec_key_wf(*key) {
            let p = key.point_of();
            let n: int = field_len(key.curve_of()) as int;
            assert((p.len() - 1) / 2 == n);
            assert(sec1_join(p.subrange(1, 1 + n), p.subrange(1 + n, p.len() as int)) =~= p);
        }
    }
    match key {
        EcKeyPair::Public { curve, point } => {
            let (x, y) = split_sec1_point(point);
            EcComponents { curve: *curve, x, y, d: None }
        },
        EcKeyPair::Private { curve, d, point } => {
            let (x, y) = split_sec1_point(point);
            EcComponents { curve: *curve, x, y, d: Some(d.clone()) }
        },
    }
}

/// Builds a public key from raw JWK `x`/`y` coordinates, as the point `0x04 || x || y`.
pub fn public_key_from_components(curve: EcCurve, x: &[u8], y: &[u8]) -> (r: Result<EcKeyPair, EcError>)
    ensures
        r matches Ok(k) ==> ec_key_wf(k),
        r matches Ok(k) ==> ec_sec1_public(curve, sec1_join(x@, y@)) == Some(k.point_of()) && is_public_key(k, curve, k.point_of()),
        r is Err <==> ec_sec1_public(curve, sec1_join(x@, y@)) is None,
        r matches Err(e) ==> e == EcError::InvalidKey,
{
    let mut point: Vec<u8> = Vec::new();
    point.push(4u8);
    let mut i: usize = 0;
    while i < x.len()
        invariant
            point@ == seq![4u8] + x@.subrange(0, i as int),
            i <= x@.len(),
        decreases x.len() - i,
    {
        point.push(x[i]);
        i = i + 1;
    }
    let mut j: usize = 0;
    while j < y.len()
        invariant
            point@ == seq![4u8] + x@ + y@.subrange(0, j as int),
            j <= y@.len(),
        decreases y.len() - j,
    {
        point.push(y[j]);
        j = j + 1;
    }
    assert(point@ =~= sec1_join(x@, y@));
    public_key_from_raw(curve, &point)
}

/// Builds a private key from a raw JWK `d` scalar.
pub fn private_key_from_components(curve: EcCurve, d: &[u8]) -> (r: Result<EcKeyPair, EcError>)
    ensures
        r matches Ok(k) ==> ec_key_wf(k),
        r matches Ok(k) ==> (k matches EcKeyPair::Private { curve: c, d: kd, point } && c == curve
            && ec_scalar_private(curve, d@) == Some((kd@, point@))),
        r is Err <==> ec_scalar_private(curve, d@) is None,
        r matches Err(e) ==> e == EcError::InvalidKey,
{
    match scalar_private(curve, d) {
        Some((kd, point)) => Ok(EcKeyPair::Private { curve, d: kd, point }),
        None => Err(EcError::InvalidKey),
    }
}

} // verus!
