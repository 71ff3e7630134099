//! RSA keys as plain big-endian components, with PKCS#1 v1.5 sign/verify, OAEP
//! encrypt/decrypt and PKCS#8/SPKI/JWK-component conversion. Callers translate [`RsaError`]
//! into the matching named `DOMException`.
//!
//! A key is held as the big-endian bytes of its components, exactly as the `rsa` crate reports
//! them; each operation hands those components back to `rsa`, which validates them again and
//! does the arithmetic.
use vstd::prelude::*;

use rand::rngs::OsRng;
use rsa::pkcs8::{DecodePrivateKey, DecodePublicKey, EncodePrivateKey, EncodePublicKey};
use rsa::traits::{PrivateKeyParts, PublicKeyParts};
use rsa::{BigUint, Oaep, Pkcs1v15Sign, Pss};
use sha2::{Sha256, Sha384, Sha512};

use super::digest::Algo;

verus! {

broadcast use vstd::std_specs::vec::group_vec_axioms;

/// An RSA public key: modulus `n` and exponent `e`, big-endian.
pub struct RsaPublicKey {
    n: Vec<u8>,
    e: Vec<u8>,
}

/// An RSA private key: modulus, public and private exponents and the prime factors of the
/// modulus, big-endian.
pub struct RsaPrivateKey {
    n: Vec<u8>,
    e: Vec<u8>,
    d: Vec<u8>,
    primes: Vec<Vec<u8>>,
}

/// The components of a public key.
pub struct RsaPublicView {
    pub n: Seq<u8>,
    pub e: Seq<u8>,
}

/// The components of a private key.
pub struct RsaPrivateView {
    pub n: Seq<u8>,
    pub e: Seq<u8>,
    pub d: Seq<u8>,
    pub primes: Seq<Seq<u8>>,
}

impl View for RsaPublicKey {
    type V = RsaPublicView;

    closed spec fn view(&self) -> RsaPublicView {
        RsaPublicView { n: self.n@, e: self.e@ }
    }
}

impl View for RsaPrivateKey {
    type V = RsaPrivateView;

    closed spec fn view(&self) -> RsaPrivateView {
        RsaPrivateView { n: self.n@, e: self.e@, d: self.d@, primes: self.primes.deep_view() }
    }
}

/// The public half of a private key.
pub open spec fn public_of(k: RsaPrivateView) -> RsaPublicView {
    RsaPublicView { n: k.n, e: k.e }
}

/// Either half of an RSA key pair, as a `CryptoKey` holds it.
pub enum RsaKeyPair {
    Private(RsaPrivateKey),
    Public(RsaPublicKey),
}

/// Why an RSA operation was refused.
#[derive(Debug, Clone, Copy, PartialEq, Eq, Structural)]
pub enum RsaError {
    /// Key material is malformed (bad `n`/`e`/`d`/primes, or undecodable PKCS#8/SPKI DER).
    InvalidKey,
    /// A sign/encrypt/decrypt operation itself failed.
    OperationFailed,
    /// The requested hash isn't usable with this operation (OAEP only supports SHA-256/384/512).
    UnsupportedHash,
}

/// `n`/`e`/`d`/`p`/`q`/`dp`/`dq`/`qi`, each as raw big-endian bytes, for JWK export.
/// `d`/`p`/`q`/`dp`/`dq`/`qi` are only present for a private key.
pub struct RsaComponents {
    pub n: Vec<u8>,
    pub e: Vec<u8>,
    pub d: Option<Vec<u8>>,
    pub p: Option<Vec<u8>>,
    pub q: Option<Vec<u8>>,
    pub dp: Option<Vec<u8>>,
    pub dq: Option<Vec<u8>>,
    pub qi: Option<Vec<u8>>,
}

// ---------------------------------------------------------------------------------------------
// Integers as big-endian bytes
// ---------------------------------------------------------------------------------------------

/// Number of significant bits of a byte.
pub open spec fn byte_bit_len(b: u8) -> nat {
    if b >= 128 {
        8
    } else if b >= 64 {
        7
    } else if b >= 32 {
        6
    } else if b >= 16 {
        5
    } else if b >= 8 {
        4
    } else if b >= 4 {
        3
    } else if b >= 2 {
        2
    } else if b >= 1 {
        1
    } else {
        0
    }
}

/// Number of significant bits of the big-endian integer `s` (leading zero bytes ignored).
pub open spec fn be_bit_len(s: Seq<u8>) -> nat
    decreases s.len(),
{
    if s.len() == 0 {
        0
    } else if s[0] == 0 {
        be_bit_len(s.drop_first())
    } else {
        8 * (s.len() - 1) as nat + byte_bit_len(s[0])
    }
}

/// Value of the big-endian integer `s`.
pub open spec fn be_value(s: Seq<u8>) -> nat
    decreases s.len(),
{
    if s.len() == 0 {
        0
    } else {
        be_value(s.drop_last()) * 256 + s.last() as nat
    }
}

/// Size in bytes of the modulus: what an RSA signature or ciphertext under the key occupies.
pub open spec fn modulus_len(n: Seq<u8>) -> nat {
    (be_bit_len(n) + 7) / 8
}

fn byte_bit_len_exec(b: u8) -> (r: u8)
    ensures
        r == byte_bit_len(b),
{
    if b >= 128 {
        8
    } else if b >= 64 {
        7
    } else if b >= 32 {
        6
    } else if b >= 16 {
        5
    } else if b >= 8 {
        4
    } else if b >= 4 {
        3
    } else if b >= 2 {
        2
    } else if b >= 1 {
        1
    } else {
        0
    }
}

/// `BigUint::bits` on a big-endian integer, exactly, as a `u128`.
fn bit_len(s: &Vec<u8>) -> (r: u128)
    ensures
        r == be_bit_len(s@),
{
    let mut i: usize = 0;
    assert(s@.skip(0) =~= s@);
    while i < s.len() && s[i] == 0
        invariant
            i <= s@.len(),
            be_bit_len(s@) == be_bit_len(s@.skip(i as int)),
        decreases s.len() - i,
    {
        assert(s@.skip(i as int).drop_first() =~= s@.skip(i + 1));
        i = i + 1;
    }
    if i == s.len() {
        assert(s@.skip(i as int).len() == 0);
        return 0;
    }
    let m: u128 = (s.len() - 1 - i) as u128;
    let b: u8 = byte_bit_len_exec(s[i]);
    m * 8 + (b as u128)
}

// ---------------------------------------------------------------------------------------------
// What the `rsa` crate computes
// ---------------------------------------------------------------------------------------------

/// `RsaPrivateKey::from_pkcs8_der` (which validates the key), read back as components.
pub uninterp spec fn rsa_pkcs8_private(der: Seq<u8>) -> Option<RsaPrivateView>;

/// `RsaPrivateKey::from_components` on the key's components, then `to_pkcs8_der`.
pub uninterp spec fn rsa_pkcs8_encoding(key: RsaPrivateView) -> Option<Seq<u8>>;

/// `RsaPublicKey::from_public_key_der` (which validates the key), read back as components.
pub uninterp spec fn rsa_spki_public(der: Seq<u8>) -> Option<RsaPublicView>;

/// `to_public_key_der` of the public key with these components.
pub uninterp spec fn rsa_spki_encoding(key: RsaPublicView) -> Option<Seq<u8>>;

/// `d` divides `n`.
pub open spec fn divides(d: nat, n: nat) -> bool {
    n % d == 0
}

/// `p` is a prime number.
pub open spec fn is_prime(p: nat) -> bool {
    p > 1 && forall|d: nat| 1 < d < p ==> !#[trigger] divides(d, p)
}

/// The greatest common divisor of `a` and `b` (Euclid).
pub open spec fn gcd(a: nat, b: nat) -> nat
    decreases b,
{
    if b == 0 {
        a
    } else {
        gcd(b, a % b)
    }
}

/// What `check_public` accepts of a public key (without a size limit): an odd modulus above
/// the exponent, and an odd exponent from 3 to 2^33 - 1.
pub open spec fn public_key_accepted(n: Seq<u8>, e: Seq<u8>) -> bool {
    &&& be_value(e) < be_value(n)
    &&& be_value(n) % 2 == 1
    &&& be_value(e) % 2 == 1
    &&& 3 <= be_value(e) <= 0x1_ffff_ffff
}

/// The largest modulus, in bits, `RsaPublicKey::new` accepts.
pub open spec fn max_public_bits() -> nat {
    4096
}

/// The components of a two-prime key pass `validate` (the public check, `p * q == n`, both
/// primes above 1, `e * d == 1` modulo `p - 1` and `q - 1`) and `precompute` (`q` is invertible
/// modulo `p`).
pub open spec fn two_prime_valid(n: Seq<u8>, e: Seq<u8>, d: Seq<u8>, p: Seq<u8>, q: Seq<u8>) -> bool {
    &&& public_key_accepted(n, e)
    &&& be_value(p) > 1 && be_value(q) > 1
    &&& be_value(p) * be_value(q) == be_value(n)
    &&& (be_value(e) * be_value(d)) % ((be_value(p) - 1) as nat) == 1
    &&& (be_value(e) * be_value(d)) % ((be_value(q) - 1) as nat) == 1
    &&& gcd(be_value(q), be_value(p)) == 1
}

/// A two-prime key whose primes really are prime: RSA decryption undoes encryption under it.
pub open spec fn sound_private_key(k: RsaPrivateView) -> bool {
    &&& k.primes.len() == 2
    &&& two_prime_valid(k.n, k.e, k.d, k.primes[0], k.primes[1])
    &&& is_prime(be_value(k.primes[0])) && is_prime(be_value(k.primes[1]))
}

/// A public key as the crate writes it back: each component without leading zero bytes.
pub open spec fn canonical_public(n: Seq<u8>, e: Seq<u8>) -> RsaPublicView {
    RsaPublicView { n: strip_leading_zeros(n), e: strip_leading_zeros(e) }
}

/// A two-prime private key as the crate writes it back.
pub open spec fn canonical_private(n: Seq<u8>, e: Seq<u8>, d: Seq<u8>, p: Seq<u8>, q: Seq<u8>) -> RsaPrivateView {
    RsaPrivateView {
        n: strip_leading_zeros(n),
        e: strip_leading_zeros(e),
        d: strip_leading_zeros(d),
        primes: seq![strip_leading_zeros(p), strip_leading_zeros(q)],
    }
}

/// `RsaPublicKey::new(n, e)`, read back as components: the key when `check_public` with the
/// 4096-bit limit accepts it.
pub open spec fn rsa_checked_public(n: Seq<u8>, e: Seq<u8>) -> Option<RsaPublicView> {
    if public_key_accepted(n, e) && be_bit_len(n) <= max_public_bits() {
        Some(canonical_public(n, e))
    } else {
        None
    }
}

/// `RsaPrivateKey::from_components(n, e, d, [p, q])` followed by `precompute`, read back as
/// components: the key when both accept it.
pub open spec fn rsa_checked_private(n: Seq<u8>, e: Seq<u8>, d: Seq<u8>, p: Seq<u8>, q: Seq<u8>) -> Option<RsaPrivateView> {
    if two_prime_valid(n, e, d, p, q) {
        Some(canonical_private(n, e, d, p, q))
    } else {
        None
    }
}

/// `dp`, `dq` and the CRT coefficient `qi` of the key rebuilt from its components, each when
/// the crate has it (none of them when the components don't form a valid key).
pub uninterp spec fn rsa_crt_values(key: RsaPrivateView) -> (Option<Seq<u8>>, Option<Seq<u8>>, Option<Seq<u8>>);

/// The PKCS#1 v1.5 signature of `hashed` with DigestInfo `prefix` and hash length `hash_len`,
/// or `None` when the key or the input is rejected.
pub uninterp spec fn rsa_pkcs1v15_signature(
    key: RsaPrivateView,
    prefix: Seq<u8>,
    hash_len: nat,
    hashed: Seq<u8>,
) -> Option<Seq<u8>>;

/// Whether `signature` is a valid PKCS#1 v1.5 signature of `hashed`.
pub uninterp spec fn rsa_pkcs1v15_valid(
    key: RsaPublicView,
    prefix: Seq<u8>,
    hash_len: nat,
    hashed: Seq<u8>,
    signature: Seq<u8>,
) -> bool;

/// RSA-OAEP-SHA-256 decryption of `ciphertext` under `label`, `None` when rejected.
pub uninterp spec fn rsa_oaep_sha256_plaintext(key: RsaPrivateView, label: Seq<u8>, ciphertext: Seq<u8>) -> Option<Seq<u8>>;

/// RSA-OAEP-SHA-384 decryption of `ciphertext` under `label`, `None` when rejected.
pub uninterp spec fn rsa_oaep_sha384_plaintext(key: RsaPrivateView, label: Seq<u8>, ciphertext: Seq<u8>) -> Option<Seq<u8>>;

/// RSA-OAEP-SHA-512 decryption of `ciphertext` under `label`, `None` when rejected.
pub uninterp spec fn rsa_oaep_sha512_plaintext(key: RsaPrivateView, label: Seq<u8>, ciphertext: Seq<u8>) -> Option<Seq<u8>>;

/// The view of an optional private key.
pub open spec fn opt_private_view(k: Option<RsaPrivateKey>) -> Option<RsaPrivateView> {
    match k {
        Some(k) => Some(k@),
        None => None,
    }
}

/// The view of an optional public key.
pub open spec fn opt_public_view(k: Option<RsaPublicKey>) -> Option<RsaPublicView> {
    match k {
        Some(k) => Some(k@),
        None => None,
    }
}

/// The view of optional bytes.
pub open spec fn opt_bytes(v: Option<Vec<u8>>) -> Option<Seq<u8>> {
    match v {
        Some(v) => Some(v@),
        None => None,
    }
}

/// The view of three optional byte strings.
pub open spec fn opt_bytes3(v: (Option<Vec<u8>>, Option<Vec<u8>>, Option<Vec<u8>>)) -> (
    Option<Seq<u8>>,
    Option<Seq<u8>>,
    Option<Seq<u8>>,
) {
    (opt_bytes(v.0), opt_bytes(v.1), opt_bytes(v.2))
}

/// `s` without its leading zero bytes: how `BigUint::to_bytes_be` writes a non-zero value.
pub open spec fn strip_leading_zeros(s: Seq<u8>) -> Seq<u8>
    decreases s.len(),
{
    if s.len() > 0 && s[0] == 0 {
        strip_leading_zeros(s.drop_first())
    } else {
        s
    }
}

/// A generated key has two primes, a modulus of exactly the requested size and the
/// requested exponent, written without leading zero bytes.
pub open spec fn generated_as_requested(k: RsaPrivateView, bits: nat, exponent: Seq<u8>) -> bool {
    &&& k.primes.len() == 2
    &&& be_bit_len(k.n) == bits
    &&& be_value(k.e) == be_value(exponent)
    &&& k.e == strip_leading_zeros(exponent)
}

/// `k` is `Some` and its view satisfies [`generated_as_requested`].
pub open spec fn is_generated(k: Option<RsaPrivateKey>, bits: nat, exponent: Seq<u8>) -> bool {
    k matches Some(k) ==> generated_as_requested(k@, bits, exponent)
}

/// The exponent lies within the bounds the crate's key check accepts: 3 to 2^33 - 1.
pub open spec fn exponent_in_range(e: Seq<u8>) -> bool {
    3 <= be_value(e) <= 0x1_ffff_ffff
}

/// A prime the generator may draw for a prime of `size` bits: exactly `size` bits long with
/// its two top bits set.
pub open spec fn candidate_prime(p: nat, size: nat) -> bool {
    &&& is_prime(p)
    &&& 3 * vstd::arithmetic::power2::pow2((size - 2) as nat) <= p
    &&& p < vstd::arithmetic::power2::pow2(size)
}

/// Two distinct primes of the sizes a `bits`-bit modulus is built from, `bits / 2` and the
/// rest, whose `(p - 1) * (q - 1)` is coprime to the exponent: what the prime search looks for.
pub open spec fn prime_pair_exists(bits: nat, e: nat) -> bool {
    exists|p: nat, q: nat|
        #![trigger candidate_prime(p, bits / 2), candidate_prime(q, (bits - bits / 2) as nat)]
        candidate_prime(p, bits / 2) && candidate_prime(q, (bits - bits / 2) as nat) && p != q && gcd(
            e,
            ((p - 1) * (q - 1)) as nat,
        ) == 1
}

/// A generation request whose prime search ends: below 12 bits the crate refuses at once (too
/// few primes of that size); from 12 bits on it draws random primes until it meets a pair as
/// [`prime_pair_exists`] describes, so one must exist (none does for an even exponent, nor, for
/// instance, for 12 bits and the exponent 1131).
pub open spec fn generation_ends(bits: nat, exponent: Seq<u8>) -> bool {
    bits < 12 || prime_pair_exists(bits, be_value(exponent))
}

/// A generation request that always yields a key: at least 12 bits, an exponent the key check
/// accepts, and one shorter than the modulus, so below it whatever primes are drawn.
pub open spec fn generation_succeeds(bits: nat, exponent: Seq<u8>) -> bool {
    bits >= 12 && exponent_in_range(exponent) && be_bit_len(exponent) < bits
}

/// `RsaPrivateKey::new_with_exp` with two primes; the primes are random. Below 12 bits the
/// crate refuses (`TooFewPrimes`). Otherwise it draws primes (`gen_prime`, documented to return
/// a prime of the given size with its top two bits set) until it has two distinct ones whose
/// product has exactly `bits` bits and whose `p - 1`, `q - 1` are coprime to the exponent, sets
/// `d` to the exponent's inverse modulo `(p - 1)(q - 1)`, and hands the components to
/// `from_components`, whose check refuses an exponent outside 3 to 2^33 - 1 or not below the
/// modulus. Components come back as `BigUint::to_bytes_be` writes them. Requests whose search
/// never ends are excluded. Which primes are drawn is not stated, nor, when the exponent has as
/// many bits as the modulus, whether it lies below it.
#[verifier::external_body]
fn rsa_generate(bits: usize, exponent: &[u8]) -> (k: Option<RsaPrivateKey>)
    requires
        generation_ends(bits as nat, exponent@),
    ensures
        is_generated(k, bits as nat, exponent@),
        k matches Some(key) ==> sound_private_key(key@) && be_value(exponent@) < be_value(key@.n),
        k matches Some(key) ==> key@ == canonical_private(key@.n, key@.e, key@.d, key@.primes[0], key@.primes[1]),
        k is Some ==> bits >= 12 && exponent_in_range(exponent@) && be_bit_len(exponent@) <= bits,
        generation_succeeds(bits as nat, exponent@) ==> k is Some,
{
    let exp = BigUint::from_bytes_be(exponent);
    let key = rsa::RsaPrivateKey::new_with_exp(&mut OsRng, bits, &exp).ok()?;
    let primes = key.primes().iter().map(|p| p.to_bytes_be()).collect();
    Some(RsaPrivateKey { n: key.n().to_bytes_be(), e: key.e().to_bytes_be(), d: key.d().to_bytes_be(), primes })
}

/// `RsaPrivateKey::from_pkcs8_der`, read back as components.
#[verifier::external_body]
fn rsa_decode_pkcs8(der: &[u8]) -> (k: Option<RsaPrivateKey>)
    ensures
        opt_private_view(k) == rsa_pkcs8_private(der@),
{
    let key = rsa::RsaPrivateKey::from_pkcs8_der(der).ok()?;
    let primes = key.primes().iter().map(|p| p.to_bytes_be()).collect();
    Some(RsaPrivateKey { n: key.n().to_bytes_be(), e: key.e().to_bytes_be(), d: key.d().to_bytes_be(), primes })
}

/// `RsaPrivateKey::from_components(n, e, d, [p, q])` and `precompute`, read back as
/// components.
#[verifier::external_body]
fn rsa_private_from_parts(n: &[u8], e: &[u8], d: &[u8], p: &[u8], q: &[u8]) -> (k: Option<RsaPrivateKey>)
    ensures
        opt_private_view(k) == rsa_checked_private(n@, e@, d@, p@, q@),
{
    let primes = vec![BigUint::from_bytes_be(p), BigUint::from_bytes_be(q)];
    let mut key = rsa::RsaPrivateKey::from_components(BigUint::from_bytes_be(n), BigUint::from_bytes_be(e), BigUint::from_bytes_be(d), primes).ok()?;
    key.precompute().ok()?;
    let primes = key.primes().iter().map(|p| p.to_bytes_be()).collect();
    Some(RsaPrivateKey { n: key.n().to_bytes_be(), e: key.e().to_bytes_be(), d: key.d().to_bytes_be(), primes })
}

/// `RsaPublicKey::from_public_key_der`, read back as components.
#[verifier::external_body]
fn rsa_decode_spki(der: &[u8]) -> (k: Option<RsaPublicKey>)
    ensures
        opt_public_view(k) == rsa_spki_public(der@),
{
    let key = rsa::RsaPublicKey::from_public_key_der(der).ok()?;
    Some(RsaPublicKey { n: key.n().to_bytes_be(), e: key.e().to_bytes_be() })
}

/// `RsaPublicKey::new(n, e)`, read back as components.
#[verifier::external_body]
fn rsa_public_from_parts(n: &[u8], e: &[u8]) -> (k: Option<RsaPublicKey>)
    ensures
        opt_public_view(k) == rsa_checked_public(n@, e@),
{
    let key = rsa::RsaPublicKey::new(BigUint::from_bytes_be(n), BigUint::from_bytes_be(e)).ok()?;
    Some(RsaPublicKey { n: key.n().to_bytes_be(), e: key.e().to_bytes_be() })
}

/// `to_pkcs8_der` of the `rsa` key with these components (validated by `from_components`).
/// The DER holds `n`, `e`, `d`, `p` and `q`, which `from_pkcs8_der` reads back and validates
/// the same way, so a two-prime key comes back with the same components (without leading zero
/// bytes).
#[verifier::external_body]
fn rsa_private_to_pkcs8(k: &RsaPrivateKey) -> (der: Option<Vec<u8>>)
    ensures
        opt_bytes(der) == rsa_pkcs8_encoding(k@),
        der matches Some(b) ==> (k@.primes.len() == 2 ==> rsa_pkcs8_private(b@) == Some(
            canonical_private(k@.n, k@.e, k@.d, k@.primes[0], k@.primes[1]),
        )),
{
    let primes = k.primes.iter().map(|p| BigUint::from_bytes_be(p)).collect();
    let key = rsa::RsaPrivateKey::from_components(BigUint::from_bytes_be(&k.n), BigUint::from_bytes_be(&k.e), BigUint::from_bytes_be(&k.d), primes).ok()?;
    Some(key.to_pkcs8_der().ok()?.as_bytes().to_vec())
}

/// `EncodePublicKey::to_public_key_der` of the public key with these components. The DER holds
/// `n` and `e`, which `from_public_key_der` reads back through `RsaPublicKey::new`, so it gives
/// back the key exactly when that check accepts it.
#[verifier::external_body]
fn rsa_public_to_spki(k: &RsaPublicKey) -> (der: Option<Vec<u8>>)
    ensures
        opt_bytes(der) == rsa_spki_encoding(k@),
        der matches Some(b) ==> rsa_spki_public(b@) == rsa_checked_public(k@.n, k@.e),
{
    let key = rsa::RsaPublicKey::new_unchecked(BigUint::from_bytes_be(&k.n), BigUint::from_bytes_be(&k.e));
    Some(key.to_public_key_der().ok()?.as_bytes().to_vec())
}

/// `dp()`, `dq()` and `crt_coefficient()` of the key rebuilt by `from_components` (none of
/// them when the rebuild is refused). For a valid two-prime key `precompute` succeeds, so all
/// three are there.
#[verifier::external_body]
fn rsa_crt(k: &RsaPrivateKey) -> (r: (Option<Vec<u8>>, Option<Vec<u8>>, Option<Vec<u8>>))
    ensures
        opt_bytes3(r) == rsa_crt_values(k@),
        k@.primes.len() == 2 && two_prime_valid(k@.n, k@.e, k@.d, k@.primes[0], k@.primes[1]) ==> r.0 is Some
            && r.1 is Some && r.2 is Some,
{
    let primes = k.primes.iter().map(|p| BigUint::from_bytes_be(p)).collect();
    match rsa::RsaPrivateKey::from_components(BigUint::from_bytes_be(&k.n), BigUint::from_bytes_be(&k.e), BigUint::from_bytes_be(&k.d), primes) {
        Ok(key) => (key.dp().map(|v| v.to_bytes_be()), key.dq().map(|v| v.to_bytes_be()), key.crt_coefficient().map(|v| v.to_bytes_be())),
        Err(_) => (None, None, None),
    }
}

/// `sign_with_rng` with `Pkcs1v15Sign { hash_len, prefix }` on the key rebuilt by
/// `from_components`. Blinding uses the RNG, but the signature itself is determined by the
/// key and the input. The crate checks that the signature raised to `e` gives back the padded
/// digest, so the public half's verification accepts every signature it returns; verification
/// takes only signatures below the modulus and of its length, and for a sound key raising to
/// `e` is one-to-one there, so no other signature of the same digest is accepted.
#[verifier::external_body]
fn rsa_sign_pkcs1v15(k: &RsaPrivateKey, prefix: &[u8], hash_len: usize, hashed: &[u8]) -> (sig: Option<Vec<u8>>)
    ensures
        opt_bytes(sig) == rsa_pkcs1v15_signature(k@, prefix@, hash_len as nat, hashed@),
        sig matches Some(s) ==> rsa_pkcs1v15_valid(public_of(k@), prefix@, hash_len as nat, hashed@, s@),
        sig matches Some(s) ==> (sound_private_key(k@) ==> forall|s2: Seq<u8>|
            #[trigger] rsa_pkcs1v15_valid(public_of(k@), prefix@, hash_len as nat, hashed@, s2) ==> s2 == s@),
{
    let primes = k.primes.iter().map(|p| BigUint::from_bytes_be(p)).collect();
    let key = rsa::RsaPrivateKey::from_components(BigUint::from_bytes_be(&k.n), BigUint::from_bytes_be(&k.e), BigUint::from_bytes_be(&k.d), primes).ok()?;
    let padding = Pkcs1v15Sign { hash_len: Some(hash_len), prefix: prefix.to_vec().into_boxed_slice() };
    key.sign_with_rng(&mut OsRng, padding, hashed).ok()
}

/// `RsaPublicKey::verify` with `Pkcs1v15Sign { hash_len, prefix }`, `Ok` mapped to `true`. It
/// compares the whole digest with the end of the signature raised to `e`, so a signature
/// verifies for one digest only.
#[verifier::external_body]
fn rsa_verify_pkcs1v15(k: &RsaPublicKey, prefix: &[u8], hash_len: usize, hashed: &[u8], signature: &[u8]) -> (ok: bool)
    ensures
        ok == rsa_pkcs1v15_valid(k@, prefix@, hash_len as nat, hashed@, signature@),
        ok ==> forall|h: Seq<u8>| #[trigger] rsa_pkcs1v15_valid(k@, prefix@, hash_len as nat, h, signature@) ==> h == hashed@,
{
    let key = rsa::RsaPublicKey::new_unchecked(BigUint::from_bytes_be(&k.n), BigUint::from_bytes_be(&k.e));
    let padding = Pkcs1v15Sign { hash_len: Some(hash_len), prefix: prefix.to_vec().into_boxed_slice() };
    key.verify(padding, hashed, signature).is_ok()
}

/// The longest label OAEP takes, in bytes of its text.
pub open spec fn max_label_len() -> nat {
    0x1fff_ffff_ffff_ffff
}

/// What holds of every outcome of OAEP encryption under `hash` (the padding is random): the
/// key must pass the public check and the message fit the modulus less `2 * hLen + 2` bytes;
/// then, for a label of sensible size, a ciphertext comes back. It fills the modulus, and every
/// sound private key with this public half decrypts it, under the same hash and label, to the
/// message.
pub open spec fn oaep_outcome(
    ct: Option<Vec<u8>>,
    key: RsaPublicView,
    hash: Algo,
    label: Seq<u8>,
    msg: Seq<u8>,
) -> bool {
    let fits = msg.len() + 2 * super::digest::digest_len_of(hash) + 2 <= modulus_len(key.n);
    &&& (ct is Some ==> public_key_accepted(key.n, key.e) && fits)
    &&& (public_key_accepted(key.n, key.e) && fits && 3 * label.len() <= max_label_len() ==> ct is Some)
    &&& (ct matches Some(c) ==> c@.len() == modulus_len(key.n))
    &&& (ct matches Some(c) ==> forall|sk: RsaPrivateView|
        public_of(sk) == key && sound_private_key(sk) ==> #[trigger] oaep_plaintext_of(sk, hash, label, c@) == Some(msg))
}

/// `RsaPublicKey::encrypt` with `Oaep::new_with_label::<Sha256, _>(label)` (the label's lossy
/// UTF-8 text, as decryption takes it): `check_public`, then random OAEP padding, then `m^e`.
#[verifier::external_body]
fn rsa_encrypt_oaep_sha256(k: &RsaPublicKey, label: &[u8], msg: &[u8]) -> (ct: Option<Vec<u8>>)
    ensures
        oaep_outcome(ct, k@, Algo::Sha256, label@, msg@),
{
    let key = rsa::RsaPublicKey::new_unchecked(BigUint::from_bytes_be(&k.n), BigUint::from_bytes_be(&k.e));
    let padding = Oaep::new_with_label::<Sha256, _>(String::from_utf8_lossy(label).into_owned());
    key.encrypt(&mut OsRng, padding, msg).ok()
}

/// `RsaPublicKey::encrypt` with `Oaep::new_with_label::<Sha384, _>(label)` (the label's lossy
/// UTF-8 text, as decryption takes it): `check_public`, then random OAEP padding, then `m^e`.
#[verifier::external_body]
fn rsa_encrypt_oaep_sha384(k: &RsaPublicKey, label: &[u8], msg: &[u8]) -> (ct: Option<Vec<u8>>)
    ensures
        oaep_outcome(ct, k@, Algo::Sha384, label@, msg@),
{
    let key = rsa::RsaPublicKey::new_unchecked(BigUint::from_bytes_be(&k.n), BigUint::from_bytes_be(&k.e));
    let padding = Oaep::new_with_label::<Sha384, _>(String::from_utf8_lossy(label).into_owned());
    key.encrypt(&mut OsRng, padding, msg).ok()
}

/// `RsaPublicKey::encrypt` with `Oaep::new_with_label::<Sha512, _>(label)` (the label's lossy
/// UTF-8 text, as decryption takes it): `check_public`, then random OAEP padding, then `m^e`.
#[verifier::external_body]
fn rsa_encrypt_oaep_sha512(k: &RsaPublicKey, label: &[u8], msg: &[u8]) -> (ct: Option<Vec<u8>>)
    ensures
        oaep_outcome(ct, k@, Algo::Sha512, label@, msg@),
{
    let key = rsa::RsaPublicKey::new_unchecked(BigUint::from_bytes_be(&k.n), BigUint::from_bytes_be(&k.e));
    let padding = Oaep::new_with_label::<Sha512, _>(String::from_utf8_lossy(label).into_owned());
    key.encrypt(&mut OsRng, padding, msg).ok()
}

/// `RsaPrivateKey::decrypt` with `Oaep::new_with_label::<Sha256, _>(label)` on the key
/// rebuilt by `from_components`.
#[verifier::external_body]
fn rsa_decrypt_oaep_sha256(k: &RsaPrivateKey, label: &[u8], ct: &[u8]) -> (pt: Option<Vec<u8>>)
    ensures
        opt_bytes(pt) == rsa_oaep_sha256_plaintext(k@, label@, ct@),
{
    let primes = k.primes.iter().map(|p| BigUint::from_bytes_be(p)).collect();
    let key = rsa::RsaPrivateKey::from_components(BigUint::from_bytes_be(&k.n), BigUint::from_bytes_be(&k.e), BigUint::from_bytes_be(&k.d), primes).ok()?;
    let padding = Oaep::new_with_label::<Sha256, _>(String::from_utf8_lossy(label).into_owned());
    key.decrypt(padding, ct).ok()
}

/// `RsaPrivateKey::decrypt` with `Oaep::new_with_label::<Sha384, _>(label)`.
#[verifier::external_body]
fn rsa_decrypt_oaep_sha384(k: &RsaPrivateKey, label: &[u8], ct: &[u8]) -> (pt: Option<Vec<u8>>)
    ensures
        opt_bytes(pt) == rsa_oaep_sha384_plaintext(k@, label@, ct@),
{
    let primes = k.primes.iter().map(|p| BigUint::from_bytes_be(p)).collect();
    let key = rsa::RsaPrivateKey::from_components(BigUint::from_bytes_be(&k.n), BigUint::from_bytes_be(&k.e), BigUint::from_bytes_be(&k.d), primes).ok()?;
    let padding = Oaep::new_with_label::<Sha384, _>(String::from_utf8_lossy(label).into_owned());
    key.decrypt(padding, ct).ok()
}

/// `RsaPrivateKey::decrypt` with `Oaep::new_with_label::<Sha512, _>(label)`.
#[verifier::external_body]
fn rsa_decrypt_oaep_sha512(k: &RsaPrivateKey, label: &[u8], ct: &[u8]) -> (pt: Option<Vec<u8>>)
    ensures
        opt_bytes(pt) == rsa_oaep_sha512_plaintext(k@, label@, ct@),
{
    let primes = k.primes.iter().map(|p| BigUint::from_bytes_be(p)).collect();
    let key = rsa::RsaPrivateKey::from_components(BigUint::from_bytes_be(&k.n), BigUint::from_bytes_be(&k.e), BigUint::from_bytes_be(&k.d), primes).ok()?;
    let padding = Oaep::new_with_label::<Sha512, _>(String::from_utf8_lossy(label).into_owned());
    key.decrypt(padding, ct).ok()
}

// ---------------------------------------------------------------------------------------------
// The library's RSA operations
// ---------------------------------------------------------------------------------------------

impl RsaKeyPair {
    /// The public components of either half.
    pub open spec fn public_view(self) -> RsaPublicView {
        match self {
            RsaKeyPair::Private(k) => public_of(k@),
            RsaKeyPair::Public(k) => k@,
        }
    }

    /// The public key of the pair (the private key's modulus and exponent for a private key).
    pub fn public_key(&self) -> (r: RsaPublicKey)
        ensures
            r@ == self.public_view(),
    {
        match self {
            RsaKeyPair::Private(k) => RsaPublicKey { n: k.n.clone(), e: k.e.clone() },
            RsaKeyPair::Public(k) => RsaPublicKey { n: k.n.clone(), e: k.e.clone() },
        }
    }
}

/// `(modulusLength, publicExponent)` for `CryptoKey.algorithm`, derived from the key itself:
/// the bit length of the modulus (as a `u32`, truncating) and the exponent's bytes.
pub fn key_algorithm_params(pair: &RsaKeyPair) -> (r: (u32, Vec<u8>))
    ensures
        r.0 == be_bit_len(pair.public_view().n) as u32,
        r.1@ == pair.public_view().e,
{
    let public = pair.public_key();
    let bits: u128 = bit_len(&public.n);
    (bits as u32, public.e)
}

/// Generates an RSA keypair with the given modulus length (bits) and public exponent
/// (big-endian bytes, e.g. `[1, 0, 1]` for 65537). A key comes back only for a modulus of at
/// least 12 bits and an exponent from 3 to 2^33 - 1 below the modulus, and always does when the
/// exponent is also shorter than the modulus; the private half is a sound two-prime key and the
/// public half its modulus and exponent. Only requests whose prime search ends are accepted.
pub fn generate_keypair(modulus_length_bits: u32, public_exponent: &[u8]) -> (r: Result<
    (RsaPrivateKey, RsaPublicKey),
    RsaError,
>)
    requires
        generation_ends(modulus_length_bits as nat, public_exponent@),
    ensures
        r is Ok ==> modulus_length_bits >= 12 && exponent_in_range(public_exponent@) && be_bit_len(public_exponent@)
            <= modulus_length_bits,
        generation_succeeds(modulus_length_bits as nat, public_exponent@) ==> r is Ok,
        r matches Ok((k, p)) ==> generated_as_requested(k@, modulus_length_bits as nat, public_exponent@)
            && sound_private_key(k@) && be_value(public_exponent@) < be_value(k@.n) && p@ == public_of(k@),
        r matches Ok((k, p)) ==> k@ == canonical_private(k@.n, k@.e, k@.d, k@.primes[0], k@.primes[1]),
        r matches Err(e) ==> e == RsaError::InvalidKey,
{
    match rsa_generate(modulus_length_bits as usize, public_exponent) {
        Some(private) => {
            let public = RsaPublicKey { n: private.n.clone(), e: private.e.clone() };
            Ok((private, public))
        },
        None => Err(RsaError::InvalidKey),
    }
}

/// The ASN.1 DigestInfo prefix a PKCS#1 v1.5 signature's hash is wrapped in (RFC 8017,
/// Appendix B.1).
pub open spec fn digest_info_prefix_of(hash: Algo) -> Seq<u8> {
    match hash {
        Algo::Sha1 => seq![
            0x30u8, 0x21, 0x30, 0x09, 0x06, 0x05, 0x2b, 0x0e, 0x03, 0x02, 0x1a, 0x05, 0x00, 0x04, 0x14,
        ],
        Algo::Sha256 => seq![
            0x30u8, 0x31, 0x30, 0x0d, 0x06, 0x09, 0x60, 0x86, 0x48, 0x01, 0x65, 0x03, 0x04, 0x02, 0x01,
            0x05, 0x00, 0x04, 0x20,
        ],
        Algo::Sha384 => seq![
            0x30u8, 0x41, 0x30, 0x0d, 0x06, 0x09, 0x60, 0x86, 0x48, 0x01, 0x65, 0x03, 0x04, 0x02, 0x02,
            0x05, 0x00, 0x04, 0x30,
        ],
        Algo::Sha512 => seq![
            0x30u8, 0x51, 0x30, 0x0d, 0x06, 0x09, 0x60, 0x86, 0x48, 0x01, 0x65, 0x03, 0x04, 0x02, 0x03,
            0x05, 0x00, 0x04, 0x40,
        ],
    }
}

fn digest_info_prefix(hash: Algo) -> (r: Vec<u8>)
    ensures
        r@ == digest_info_prefix_of(hash),
{
    let r = match hash {
        Algo::Sha1 => vec![
            0x30u8, 0x21, 0x30, 0x09, 0x06, 0x05, 0x2b, 0x0e, 0x03, 0x02, 0x1a, 0x05, 0x00, 0x04, 0x14,
        ],
        Algo::Sha256 => vec![
            0x30u8, 0x31, 0x30, 0x0d, 0x06, 0x09, 0x60, 0x86, 0x48, 0x01, 0x65, 0x03, 0x04, 0x02, 0x01,
            0x05, 0x00, 0x04, 0x20,
        ],
        Algo::Sha384 => vec![
            0x30u8, 0x41, 0x30, 0x0d, 0x06, 0x09, 0x60, 0x86, 0x48, 0x01, 0x65, 0x03, 0x04, 0x02, 0x02,
            0x05, 0x00, 0x04, 0x30,
        ],
        Algo::Sha512 => vec![
            0x30u8, 0x51, 0x30, 0x0d, 0x06, 0x09, 0x60, 0x86, 0x48, 0x01, 0x65, 0x03, 0x04, 0x02, 0x03,
            0x05, 0x00, 0x04, 0x40,
        ],
    };
    assert(r@ =~= digest_info_prefix_of(hash));
    r
}

fn digest_len(hash: Algo) -> (r: usize)
    ensures
        r == super::digest::digest_len_of(hash),
{
    match hash {
        Algo::Sha1 => 20,
        Algo::Sha256 => 32,
        Algo::Sha384 => 48,
        Algo::Sha512 => 64,
    }
}

/// PKCS#1 v1.5 signature padding parameters: the hash length and its DigestInfo prefix.
pub struct Pkcs1v15Padding {
    pub hash_len: usize,
    pub prefix: Vec<u8>,
}

fn pkcs1v15_padding(hash: Algo) -> (r: Pkcs1v15Padding)
    ensures
        r.hash_len == super::digest::digest_len_of(hash),
        r.prefix@ == digest_info_prefix_of(hash),
{
    Pkcs1v15Padding { hash_len: digest_len(hash), prefix: digest_info_prefix(hash) }
}

/// The PKCS#1 v1.5 signature under `hash`'s padding.
pub open spec fn pkcs1v15_signature_of(key: RsaPrivateView, hash: Algo, hashed: Seq<u8>) -> Option<Seq<u8>> {
    rsa_pkcs1v15_signature(key, digest_info_prefix_of(hash), super::digest::digest_len_of(hash), hashed)
}

/// Whether `signature` is a valid PKCS#1 v1.5 signature of `hashed` under `hash`'s padding.
pub open spec fn pkcs1v15_accepts(key: RsaPublicView, hash: Algo, hashed: Seq<u8>, signature: Seq<u8>) -> bool {
    rsa_pkcs1v15_valid(key, digest_info_prefix_of(hash), super::digest::digest_len_of(hash), hashed, signature)
}

/// Signs `hashed`, which must already be the digest of the message under `hash`. Every
/// signature verifies under the key's public half; for a sound key it is the only one that
/// does, so a tampered signature is rejected.
pub fn pkcs1v15_sign(key: &RsaPrivateKey, hash: Algo, hashed: &[u8]) -> (r: Result<Vec<u8>, RsaError>)
    ensures
        r matches Ok(sig) ==> pkcs1v15_signature_of(key@, hash, hashed@) == Some(sig@),
        r matches Ok(sig) ==> pkcs1v15_accepts(public_of(key@), hash, hashed@, sig@),
        r matches Ok(sig) ==> (sound_private_key(key@) ==> forall|s2: Seq<u8>|
            #[trigger] pkcs1v15_accepts(public_of(key@), hash, hashed@, s2) ==> s2 == sig@),
        r is Err <==> pkcs1v15_signature_of(key@, hash, hashed@) is None,
        r matches Err(e) ==> e == RsaError::OperationFailed,
{
    let padding = pkcs1v15_padding(hash);
    match rsa_sign_pkcs1v15(key, &padding.prefix, padding.hash_len, hashed) {
        Some(sig) => Ok(sig),
        None => Err(RsaError::OperationFailed),
    }
}

/// Checks a PKCS#1 v1.5 signature; never an error, a rejected signature is `false`. An accepted
/// signature is accepted for no other digest.
pub fn pkcs1v15_verify(key: &RsaPublicKey, hash: Algo, hashed: &[u8], signature: &[u8]) -> (ok: bool)
    ensures
        ok == pkcs1v15_accepts(key@, hash, hashed@, signature@),
        ok ==> forall|h: Seq<u8>| #[trigger] pkcs1v15_accepts(key@, hash, h, signature@) ==> h == hashed@,
{
    let padding = pkcs1v15_padding(hash);
    rsa_verify_pkcs1v15(key, &padding.prefix, padding.hash_len, hashed, signature)
}

/// The hashes RSA-OAEP accepts.
#[derive(Debug, Clone, Copy, PartialEq, Eq, Structural)]
pub enum OaepDigest {
    Sha256,
    Sha384,
    Sha512,
}

fn oaep_digest(hash: Algo) -> (r: Result<OaepDigest, RsaError>)
    ensures
        hash == Algo::Sha1 ==> r == Err::<OaepDigest, RsaError>(RsaError::UnsupportedHash),
        hash == Algo::Sha256 ==> r == Ok::<OaepDigest, RsaError>(OaepDigest::Sha256),
        hash == Algo::Sha384 ==> r == Ok::<OaepDigest, RsaError>(OaepDigest::Sha384),
        hash == Algo::Sha512 ==> r == Ok::<OaepDigest, RsaError>(OaepDigest::Sha512),
{
    match hash {
        Algo::Sha256 => Ok(OaepDigest::Sha256),
        Algo::Sha384 => Ok(OaepDigest::Sha384),
        Algo::Sha512 => Ok(OaepDigest::Sha512),
        Algo::Sha1 => Err(RsaError::UnsupportedHash),
    }
}

/// OAEP parameters: the hash and the label. An absent label is the empty label (`Oaep::new`
/// leaves it unset, and `rsa` hashes an unset label as the empty string).
pub struct OaepPadding {
    pub digest: OaepDigest,
    pub label: Vec<u8>,
}

/// The label bytes OAEP hashes.
pub open spec fn label_bytes(label: Option<&[u8]>) -> Seq<u8> {
    match label {
        Some(l) => l@,
        None => Seq::empty(),
    }
}

fn oaep_padding(hash: Algo, label: Option<&[u8]>) -> (r: Result<OaepPadding, RsaError>)
    ensures
        hash == Algo::Sha1 <==> r is Err,
        r matches Err(e) ==> e == RsaError::UnsupportedHash,
        r matches Ok(p) ==> p.label@ == label_bytes(label) && oaep_digest_is(p.digest, hash),
{
    let digest = oaep_digest(hash)?;
    let label = match label {
        Some(l) => vstd::slice::slice_to_vec(l),
        None => Vec::new(),
    };
    Ok(OaepPadding { digest, label })
}

/// `d` is the OAEP form of `hash`.
pub open spec fn oaep_digest_is(d: OaepDigest, hash: Algo) -> bool {
    match d {
        OaepDigest::Sha256 => hash == Algo::Sha256,
        OaepDigest::Sha384 => hash == Algo::Sha384,
        OaepDigest::Sha512 => hash == Algo::Sha512,
    }
}

/// RSA-OAEP decryption under `hash` (SHA-256/384/512) and `label`.
pub open spec fn oaep_plaintext_of(key: RsaPrivateView, hash: Algo, label: Seq<u8>, ct: Seq<u8>) -> Option<Seq<u8>> {
    match hash {
        Algo::Sha256 => rsa_oaep_sha256_plaintext(key, label, ct),
        Algo::Sha384 => rsa_oaep_sha384_plaintext(key, label, ct),
        Algo::Sha512 => rsa_oaep_sha512_plaintext(key, label, ct),
        Algo::Sha1 => None,
    }
}

/// Encrypts with RSA-OAEP under `hash` (SHA-256/384/512) and `label`. The padding is random;
/// every ciphertext fills the modulus and decrypts, under any sound private key with this public
/// half and the same hash and label, to the plaintext. SHA-1 is refused with
/// [`RsaError::UnsupportedHash`]; a key the public check refuses or a message too long for the
/// modulus is refused with [`RsaError::OperationFailed`].
pub fn oaep_encrypt(key: &RsaPublicKey, hash: Algo, label: Option<&[u8]>, plaintext: &[u8]) -> (r: Result<Vec<u8>, RsaError>)
    ensures
        hash == Algo::Sha1 ==> (r matches Err(e) && e == RsaError::UnsupportedHash),
        hash != Algo::Sha1 ==> (r matches Err(e) ==> e == RsaError::OperationFailed),
        r matches Ok(ct) ==> ct@.len() == modulus_len(key@.n),
        plaintext@.len() + 2 * super::digest::digest_len_of(hash) + 2 > modulus_len(key@.n) ==> r is Err,
        r is Ok ==> public_key_accepted(key@.n, key@.e),
        hash != Algo::Sha1 && public_key_accepted(key@.n, key@.e) && plaintext@.len() + 2 * super::digest::digest_len_of(
            hash,
        ) + 2 <= modulus_len(key@.n) && 3 * label_bytes(label).len() <= max_label_len() ==> r is Ok,
        r matches Ok(ct) ==> forall|sk: RsaPrivateView|
            public_of(sk) == key@ && sound_private_key(sk) ==> #[trigger] oaep_plaintext_of(
                sk,
                hash,
                label_bytes(label),
                ct@,
            ) == Some(plaintext@),
{
    let padding = oaep_padding(hash, label)?;
    let out = match padding.digest {
        OaepDigest::Sha256 => rsa_encrypt_oaep_sha256(key, &padding.label, plaintext),
        OaepDigest::Sha384 => rsa_encrypt_oaep_sha384(key, &padding.label, plaintext),
        OaepDigest::Sha512 => rsa_encrypt_oaep_sha512(key, &padding.label, plaintext),
    };
    match out {
        Some(ct) => Ok(ct),
        None => Err(RsaError::OperationFailed),
    }
}

/// Decrypts with RSA-OAEP. SHA-1 is refused with [`RsaError::UnsupportedHash`]; a rejected
/// ciphertext is [`RsaError::OperationFailed`].
pub fn oaep_decrypt(key: &RsaPrivateKey, hash: Algo, label: Option<&[u8]>, ciphertext: &[u8]) -> (r: Result<Vec<u8>, RsaError>)
    ensures
        hash == Algo::Sha1 ==> (r matches Err(e) && e == RsaError::UnsupportedHash),
        hash != Algo::Sha1 ==> (r matches Ok(pt) ==> oaep_plaintext_of(key@, hash, label_bytes(label), ciphertext@) == Some(pt@)),
        hash != Algo::Sha1 ==> (r is Err <==> oaep_plaintext_of(key@, hash, label_bytes(label), ciphertext@) is None),
        hash != Algo::Sha1 ==> (r matches Err(e) ==> e == RsaError::OperationFailed),
{
    let padding = oaep_padding(hash, label)?;
    let out = match padding.digest {
        OaepDigest::Sha256 => rsa_decrypt_oaep_sha256(key, &padding.label, ciphertext),
        OaepDigest::Sha384 => rsa_decrypt_oaep_sha384(key, &padding.label, ciphertext),
        OaepDigest::Sha512 => rsa_decrypt_oaep_sha512(key, &padding.label, ciphertext),
    };
    match out {
        Some(pt) => Ok(pt),
        None => Err(RsaError::OperationFailed),
    }
}

/// PKCS#8 DER of a private key; [`RsaError::InvalidKey`] when `rsa` rejects the components.
/// Parsing the DER of a two-prime key gives its components back.
pub fn to_pkcs8_der(key: &RsaPrivateKey) -> (r: Result<Vec<u8>, RsaError>)
    ensures
        r matches Ok(der) ==> rsa_pkcs8_encoding(key@) == Some(der@),
        r matches Ok(der) ==> (key@.primes.len() == 2 ==> rsa_pkcs8_private(der@) == Some(
            canonical_private(key@.n, key@.e, key@.d, key@.primes[0], key@.primes[1]),
        )),
        r is Err <==> rsa_pkcs8_encoding(key@) is None,
        r matches Err(e) ==> e == RsaError::InvalidKey,
{
    match rsa_private_to_pkcs8(key) {
        Some(der) => Ok(der),
        None => Err(RsaError::InvalidKey),
    }
}

/// Parses a PKCS#8 DER private key; [`RsaError::InvalidKey`] when it doesn't decode to a
/// valid key.
pub fn from_pkcs8_der(bytes: &[u8]) -> (r: Result<RsaPrivateKey, RsaError>)
    ensures
        r matches Ok(k) ==> rsa_pkcs8_private(bytes@) == Some(k@),
        r is Err <==> rsa_pkcs8_private(bytes@) is None,
        r matches Err(e) ==> e == RsaError::InvalidKey,
{
    match rsa_decode_pkcs8(bytes) {
        Some(k) => Ok(k),
        None => Err(RsaError::InvalidKey),
    }
}

/// SubjectPublicKeyInfo DER of a public key. Parsing it gives the key back when the public
/// check (with its 4096-bit limit) accepts it, and fails otherwise.
pub fn to_spki_der(key: &RsaPublicKey) -> (r: Result<Vec<u8>, RsaError>)
    ensures
        r matches Ok(der) ==> rsa_spki_encoding(key@) == Some(der@),
        r matches Ok(der) ==> rsa_spki_public(der@) == rsa_checked_public(key@.n, key@.e),
        r is Err <==> rsa_spki_encoding(key@) is None,
        r matches Err(e) ==> e == RsaError::InvalidKey,
{
    match rsa_public_to_spki(key) {
        Some(der) => Ok(der),
        None => Err(RsaError::InvalidKey),
    }
}

/// Parses a SubjectPublicKeyInfo DER public key.
pub fn from_spki_der(bytes: &[u8]) -> (r: Result<RsaPublicKey, RsaError>)
    ensures
        r matches Ok(k) ==> rsa_spki_public(bytes@) == Some(k@),
        r is Err <==> rsa_spki_public(bytes@) is None,
        r matches Err(e) ==> e == RsaError::InvalidKey,
{
    match rsa_decode_spki(bytes) {
        Some(k) => Ok(k),
        None => Err(RsaError::InvalidKey),
    }
}

/// The view of optional bytes held in an `Option<Vec<u8>>` field.
pub open spec fn components_match_public(c: RsaComponents, k: RsaPublicView) -> bool {
    &&& c.n@ == k.n
    &&& c.e@ == k.e
    &&& c.d is None
    &&& c.p is None
    &&& c.q is None
    &&& c.dp is None
    &&& c.dq is None
    &&& c.qi is None
}

/// `c` carries the private key's components and its CRT values.
pub open spec fn components_match_private(
    c: RsaComponents,
    k: RsaPrivateView,
    crt: (Option<Seq<u8>>, Option<Seq<u8>>, Option<Seq<u8>>),
) -> bool {
    &&& c.n@ == k.n
    &&& c.e@ == k.e
    &&& opt_bytes(c.d) == Some(k.d)
    &&& opt_bytes(c.p) == Some(k.primes[0])
    &&& opt_bytes(c.q) == Some(k.primes[1])
    &&& opt_bytes(c.dp) == crt.0
    &&& opt_bytes(c.dq) == crt.1
    &&& opt_bytes(c.qi) == crt.2
}

/// JWK components of a public key.
pub fn public_components(key: &RsaPublicKey) -> (c: RsaComponents)
    ensures
        components_match_public(c, key@),
{
    RsaComponents {
        n: key.n.clone(),
        e: key.e.clone(),
        d: None,
        p: None,
        q: None,
        dp: None,
        dq: None,
        qi: None,
    }
}

/// JWK components of a private key. Only two-prime keys can be exported; any other is
/// [`RsaError::InvalidKey`]. `dp`, `dq` and `qi` are given when the crate has them.
pub fn private_components(key: &RsaPrivateKey) -> (r: Result<RsaComponents, RsaError>)
    ensures
        r is Ok <==> key@.primes.len() == 2,
        r matches Ok(c) ==> components_match_private(c, key@, rsa_crt_values(key@)),
        r matches Ok(c) ==> (two_prime_valid(key@.n, key@.e, key@.d, key@.primes[0], key@.primes[1]) ==> c.dp is Some
            && c.dq is Some && c.qi is Some),
        r matches Err(e) ==> e == RsaError::InvalidKey,
{
    if key.primes.len() != 2 {
        return Err(RsaError::InvalidKey);
    }
    let (dp, dq, qi) = rsa_crt(key);
    let p = key.primes[0].clone();
    let q = key.primes[1].clone();
    proof {
        assert(key.primes.deep_view()[0] == key.primes@[0]@);
        assert(key.primes.deep_view()[1] == key.primes@[1]@);
    }
    Ok(RsaComponents {
        n: key.n.clone(),
        e: key.e.clone(),
        d: Some(key.d.clone()),
        p: Some(p),
        q: Some(q),
        dp,
        dq,
        qi,
    })
}

/// Builds a public key from JWK `n`/`e`; [`RsaError::InvalidKey`] when `rsa` rejects them.
pub fn public_key_from_components(n: &[u8], e: &[u8]) -> (r: Result<RsaPublicKey, RsaError>)
    ensures
        r matches Ok(k) ==> rsa_checked_public(n@, e@) == Some(k@),
        r is Err <==> rsa_checked_public(n@, e@) is None,
        r matches Err(err) ==> err == RsaError::InvalidKey,
{
    match rsa_public_from_parts(n, e) {
        Some(k) => Ok(k),
        None => Err(RsaError::InvalidKey),
    }
}

/// Builds a two-prime private key from JWK `n`/`e`/`d`/`p`/`q`; [`RsaError::InvalidKey`]
/// when `rsa` rejects them.
pub fn private_key_from_components(n: &[u8], e: &[u8], d: &[u8], p: &[u8], q: &[u8]) -> (r: Result<
    RsaPrivateKey,
    RsaError,
>)
    ensures
        r matches Ok(k) ==> rsa_checked_private(n@, e@, d@, p@, q@) == Some(k@),
        r is Err <==> rsa_checked_private(n@, e@, d@, p@, q@) is None,
        r matches Err(err) ==> err == RsaError::InvalidKey,
{
    match rsa_private_from_parts(n, e, d, p, q) {
        Some(k) => Ok(k),
        None => Err(RsaError::InvalidKey),
    }
}


/// A leading zero byte does not change the value of a big-endian integer.
proof fn lemma_be_value_drop_zero(s: Seq<u8>)
    requires
        s.len() > 0,
        s[0] == 0,
    ensures
        be_value(s) == be_value(s.drop_first()),
    decreases s.len(),
{
    if s.len() == 1 {
        assert(s.drop_last().len() == 0);
        assert(s.drop_first().len() == 0);
        assert(be_value(s) == be_value(s.drop_last()) * 256 + s.last() as nat);
        assert(s.last() == 0);
    } else {
        let t = s.drop_last();
        lemma_be_value_drop_zero(t);
        let u = s.drop_first();
        assert(u.drop_last() =~= t.drop_first());
        assert(u.last() == s.last());
        assert(be_value(s) == be_value(t) * 256 + s.last() as nat);
        assert(be_value(u) == be_value(u.drop_last()) * 256 + u.last() as nat);
    }
}

/// Stripping leading zero bytes keeps the value, the bit length, and is idempotent.
proof fn lemma_strip(s: Seq<u8>)
    ensures
        be_value(strip_leading_zeros(s)) == be_value(s),
        be_bit_len(strip_leading_zeros(s)) == be_bit_len(s),
        strip_leading_zeros(strip_leading_zeros(s)) == strip_leading_zeros(s),
    decreases s.len(),
{
    if s.len() > 0 && s[0] == 0 {
        lemma_be_value_drop_zero(s);
        lemma_strip(s.drop_first());
    }
}

/// A public key the crate accepts is rebuilt from its own components: building a key from the
/// `n` and `e` that [`public_components`] exports gives the key back (without leading zero
/// bytes), and building one from that gives it again.
pub proof fn public_components_round_trip(n: Seq<u8>, e: Seq<u8>)
    requires
        public_key_accepted(n, e),
        be_bit_len(n) <= max_public_bits(),
    ensures
        rsa_checked_public(n, e) == Some(canonical_public(n, e)),
        rsa_checked_public(canonical_public(n, e).n, canonical_public(n, e).e) == Some(canonical_public(n, e)),
{
    lemma_strip(n);
    lemma_strip(e);
}

/// A two-prime key the crate accepts is rebuilt from its own components: building a key from
/// the `n`, `e`, `d`, `p` and `q` that [`private_components`] exports gives the key back
/// (without leading zero bytes); that key is valid too, so building one from it gives it again
/// and its CRT values are all there.
pub proof fn private_components_round_trip(k: RsaPrivateView)
    requires
        k.primes.len() == 2,
        two_prime_valid(k.n, k.e, k.d, k.primes[0], k.primes[1]),
    ensures
        rsa_checked_private(k.n, k.e, k.d, k.primes[0], k.primes[1]) == Some(
            canonical_private(k.n, k.e, k.d, k.primes[0], k.primes[1]),
        ),
        ({
            let c = canonical_private(k.n, k.e, k.d, k.primes[0], k.primes[1]);
            &&& c.primes.len() == 2
            &&& two_prime_valid(c.n, c.e, c.d, c.primes[0], c.primes[1])
            &&& rsa_checked_private(c.n, c.e, c.d, c.primes[0], c.primes[1]) == Some(c)
        }),
{
    lemma_strip(k.n);
    lemma_strip(k.e);
    lemma_strip(k.d);
    lemma_strip(k.primes[0]);
    lemma_strip(k.primes[1]);
}

/// Whether `signature` is a valid RSASSA-PSS signature of `hashed` with the given hash and salt
/// length.
pub uninterp spec fn rsa_pss_valid(
    key: RsaPublicView,
    hash: Algo,
    salt_len: nat,
    hashed: Seq<u8>,
    signature: Seq<u8>,
) -> bool;

/// The encoded message of a PSS signature under modulus `n` (`(bits(n) - 1)` bits, rounded up
/// to bytes) has room for a digest of `digest_len` bytes, a salt of `salt_len` bytes and two
/// more bytes.
pub open spec fn pss_fits(n: Seq<u8>, digest_len: nat, salt_len: nat) -> bool {
    (be_bit_len(n) - 1 + 7) / 8 >= digest_len + salt_len + 2
}

/// What holds of every RSASSA-PSS signature under `hash` (its salt is random): none for a
/// digest of the wrong length or a salt too long for the modulus, one for a sound key
/// otherwise; it fills the modulus and verifies under the key's public half with the same hash
/// and salt length.
pub open spec fn pss_outcome(sig: Option<Vec<u8>>, key: RsaPrivateView, hash: Algo, salt_len: nat, hashed: Seq<u8>) -> bool {
    let ok_input = hashed.len() == super::digest::digest_len_of(hash) && pss_fits(
        key.n,
        super::digest::digest_len_of(hash),
        salt_len,
    );
    &&& (sig is Some ==> ok_input)
    &&& (ok_input && sound_private_key(key) ==> sig is Some)
    &&& (sig matches Some(s) ==> s@.len() == modulus_len(key.n))
    &&& (sig matches Some(s) ==> rsa_pss_valid(public_of(key), hash, salt_len, hashed, s@))
}

/// `sign_with_rng` with `Pss::new_with_salt::<Sha1>(salt_len)` on the key rebuilt by
/// `from_components`; the salt is random. The crate checks that the signature raised to `e`
/// gives back the encoded message, so verification under the public half accepts it.
#[verifier::external_body]
fn rsa_sign_pss_sha1(k: &RsaPrivateKey, salt_len: usize, hashed: &[u8]) -> (sig: Option<Vec<u8>>)
    ensures
        pss_outcome(sig, k@, Algo::Sha1, salt_len as nat, hashed@),
{
    let primes = k.primes.iter().map(|p| BigUint::from_bytes_be(p)).collect();
    let key = rsa::RsaPrivateKey::from_components(BigUint::from_bytes_be(&k.n), BigUint::from_bytes_be(&k.e), BigUint::from_bytes_be(&k.d), primes).ok()?;
    key.sign_with_rng(&mut OsRng, Pss::new_with_salt::<sha1::Sha1>(salt_len), hashed).ok()
}

/// `RsaPublicKey::verify` with `Pss::new_with_salt::<Sha1>(salt_len)`, `Ok` mapped to `true`.
#[verifier::external_body]
fn rsa_verify_pss_sha1(k: &RsaPublicKey, salt_len: usize, hashed: &[u8], signature: &[u8]) -> (ok: bool)
    ensures
        ok == rsa_pss_valid(k@, Algo::Sha1, salt_len as nat, hashed@, signature@),
{
    let key = rsa::RsaPublicKey::new_unchecked(BigUint::from_bytes_be(&k.n), BigUint::from_bytes_be(&k.e));
    key.verify(Pss::new_with_salt::<sha1::Sha1>(salt_len), hashed, signature).is_ok()
}

/// `sign_with_rng` with `Pss::new_with_salt::<Sha256>(salt_len)` on the key rebuilt by
/// `from_components`; the salt is random. The crate checks that the signature raised to `e`
/// gives back the encoded message, so verification under the public half accepts it.
#[verifier::external_body]
fn rsa_sign_pss_sha256(k: &RsaPrivateKey, salt_len: usize, hashed: &[u8]) -> (sig: Option<Vec<u8>>)
    ensures
        pss_outcome(sig, k@, Algo::Sha256, salt_len as nat, hashed@),
{
    let primes = k.primes.iter().map(|p| BigUint::from_bytes_be(p)).collect();
    let key = rsa::RsaPrivateKey::from_components(BigUint::from_bytes_be(&k.n), BigUint::from_bytes_be(&k.e), BigUint::from_bytes_be(&k.d), primes).ok()?;
    key.sign_with_rng(&mut OsRng, Pss::new_with_salt::<Sha256>(salt_len), hashed).ok()
}

/// `RsaPublicKey::verify` with `Pss::new_with_salt::<Sha256>(salt_len)`, `Ok` mapped to `true`.
#[verifier::external_body]
fn rsa_verify_pss_sha256(k: &RsaPublicKey, salt_len: usize, hashed: &[u8], signature: &[u8]) -> (ok: bool)
    ensures
        ok == rsa_pss_valid(k@, Algo::Sha256, salt_len as nat, hashed@, signature@),
{
    let key = rsa::RsaPublicKey::new_unchecked(BigUint::from_bytes_be(&k.n), BigUint::from_bytes_be(&k.e));
    key.verify(Pss::new_with_salt::<Sha256>(salt_len), hashed, signature).is_ok()
}

/// `sign_with_rng` with `Pss::new_with_salt::<Sha384>(salt_len)` on the key rebuilt by
/// `from_components`; the salt is random. The crate checks that the signature raised to `e`
/// gives back the encoded message, so verification under the public half accepts it.
#[verifier::external_body]
fn rsa_sign_pss_sha384(k: &RsaPrivateKey, salt_len: usize, hashed: &[u8]) -> (sig: Option<Vec<u8>>)
    ensures
        pss_outcome(sig, k@, Algo::Sha384, salt_len as nat, hashed@),
{
    let primes = k.primes.iter().map(|p| BigUint::from_bytes_be(p)).collect();
    let key = rsa::RsaPrivateKey::from_components(BigUint::from_bytes_be(&k.n), BigUint::from_bytes_be(&k.e), BigUint::from_bytes_be(&k.d), primes).ok()?;
    key.sign_with_rng(&mut OsRng, Pss::new_with_salt::<Sha384>(salt_len), hashed).ok()
}

/// `RsaPublicKey::verify` with `Pss::new_with_salt::<Sha384>(salt_len)`, `Ok` mapped to `true`.
#[verifier::external_body]
fn rsa_verify_pss_sha384(k: &RsaPublicKey, salt_len: usize, hashed: &[u8], signature: &[u8]) -> (ok: bool)
    ensures
        ok == rsa_pss_valid(k@, Algo::Sha384, salt_len as nat, hashed@, signature@),
{
    let key = rsa::RsaPublicKey::new_unchecked(BigUint::from_bytes_be(&k.n), BigUint::from_bytes_be(&k.e));
    key.verify(Pss::new_with_salt::<Sha384>(salt_len), hashed, signature).is_ok()
}

/// `sign_with_rng` with `Pss::new_with_salt::<Sha512>(salt_len)` on the key rebuilt by
/// `from_components`; the salt is random. The crate checks that the signature raised to `e`
/// gives back the encoded message, so verification under the public half accepts it.
#[verifier::external_body]
fn rsa_sign_pss_sha512(k: &RsaPrivateKey, salt_len: usize, hashed: &[u8]) -> (sig: Option<Vec<u8>>)
    ensures
        pss_outcome(sig, k@, Algo::Sha512, salt_len as nat, hashed@),
{
    let primes = k.primes.iter().map(|p| BigUint::from_bytes_be(p)).collect();
    let key = rsa::RsaPrivateKey::from_components(BigUint::from_bytes_be(&k.n), BigUint::from_bytes_be(&k.e), BigUint::from_bytes_be(&k.d), primes).ok()?;
    key.sign_with_rng(&mut OsRng, Pss::new_with_salt::<Sha512>(salt_len), hashed).ok()
}

/// `RsaPublicKey::verify` with `Pss::new_with_salt::<Sha512>(salt_len)`, `Ok` mapped to `true`.
#[verifier::external_body]
fn rsa_verify_pss_sha512(k: &RsaPublicKey, salt_len: usize, hashed: &[u8], signature: &[u8]) -> (ok: bool)
    ensures
        ok == rsa_pss_valid(k@, Algo::Sha512, salt_len as nat, hashed@, signature@),
{
    let key = rsa::RsaPublicKey::new_unchecked(BigUint::from_bytes_be(&k.n), BigUint::from_bytes_be(&k.e));
    key.verify(Pss::new_with_salt::<Sha512>(salt_len), hashed, signature).is_ok()
}

/// Signs `hashed` (already the digest of the message under `hash`) with RSASSA-PSS. The salt is
/// random; every signature fills the modulus and verifies under the key's public half with the
/// same hash and salt length. A digest of the wrong length or a salt too long for the modulus is
/// refused with [`RsaError::OperationFailed`]; a sound key signs every other input.
pub fn pss_sign(key: &RsaPrivateKey, hash: Algo, salt_length: usize, hashed: &[u8]) -> (r: Result<Vec<u8>, RsaError>)
    ensures
        r matches Ok(sig) ==> sig@.len() == modulus_len(key@.n),
        r matches Ok(sig) ==> rsa_pss_valid(public_of(key@), hash, salt_length as nat, hashed@, sig@),
        r is Ok ==> hashed@.len() == super::digest::digest_len_of(hash) && pss_fits(
            key@.n,
            super::digest::digest_len_of(hash),
            salt_length as nat,
        ),
        sound_private_key(key@) && hashed@.len() == super::digest::digest_len_of(hash) && pss_fits(
            key@.n,
            super::digest::digest_len_of(hash),
            salt_length as nat,
        ) ==> r is Ok,
        r matches Err(e) ==> e == RsaError::OperationFailed,
{
    let sig = match hash {
        Algo::Sha1 => rsa_sign_pss_sha1(key, salt_length, hashed),
        Algo::Sha256 => rsa_sign_pss_sha256(key, salt_length, hashed),
        Algo::Sha384 => rsa_sign_pss_sha384(key, salt_length, hashed),
        Algo::Sha512 => rsa_sign_pss_sha512(key, salt_length, hashed),
    };
    match sig {
        Some(s) => Ok(s),
        None => Err(RsaError::OperationFailed),
    }
}

/// Checks an RSASSA-PSS signature; a rejected signature is `false`.
pub fn pss_verify(key: &RsaPublicKey, hash: Algo, salt_length: usize, hashed: &[u8], signature: &[u8]) -> (ok: bool)
    ensures
        ok == rsa_pss_valid(key@, hash, salt_length as nat, hashed@, signature@),
{
    match hash {
        Algo::Sha1 => rsa_verify_pss_sha1(key, salt_length, hashed, signature),
        Algo::Sha256 => rsa_verify_pss_sha256(key, salt_length, hashed, signature),
        Algo::Sha384 => rsa_verify_pss_sha384(key, salt_length, hashed, signature),
        Algo::Sha512 => rsa_verify_pss_sha512(key, salt_length, hashed, signature),
    }
}

} // verus!
