//! HKDF (RFC 5869) and PBKDF2 (RFC 8018) byte derivation.
use vstd::prelude::*;

use hkdf::Hkdf;
use sha1::Sha1;
use sha2::{Sha256, Sha384, Sha512};

use super::digest::{digest_len_of, Algo};

verus! {

/// Why a key derivation was refused.
#[derive(Debug, Clone, Copy, PartialEq, Eq, Structural)]
pub enum KdfError {
    /// HKDF-Expand's `length` exceeds `255 * hash output size` (RFC 5869 §2.3).
    InvalidLength,
}

/// The HKDF-SHA-1 output key material `T(1) || T(2) || ...` for `salt`, `ikm` and `info`;
/// a request for `L` bytes yields its first `L` bytes.
pub uninterp spec fn hkdf_sha1_okm(salt: Seq<u8>, ikm: Seq<u8>, info: Seq<u8>) -> Seq<u8>;

/// The HKDF-SHA-256 output key material stream.
pub uninterp spec fn hkdf_sha256_okm(salt: Seq<u8>, ikm: Seq<u8>, info: Seq<u8>) -> Seq<u8>;

/// The HKDF-SHA-384 output key material stream.
pub uninterp spec fn hkdf_sha384_okm(salt: Seq<u8>, ikm: Seq<u8>, info: Seq<u8>) -> Seq<u8>;

/// The HKDF-SHA-512 output key material stream.
pub uninterp spec fn hkdf_sha512_okm(salt: Seq<u8>, ikm: Seq<u8>, info: Seq<u8>) -> Seq<u8>;

/// The PBKDF2-HMAC-SHA-1 block stream `T_1 || T_2 || ...` for a password, salt and iteration
/// count; a request for `L` bytes yields its first `L` bytes.
pub uninterp spec fn pbkdf2_sha1_stream(password: Seq<u8>, salt: Seq<u8>, iterations: u32) -> Seq<u8>;

/// The PBKDF2-HMAC-SHA-256 block stream.
pub uninterp spec fn pbkdf2_sha256_stream(password: Seq<u8>, salt: Seq<u8>, iterations: u32) -> Seq<u8>;

/// The PBKDF2-HMAC-SHA-384 block stream.
pub uninterp spec fn pbkdf2_sha384_stream(password: Seq<u8>, salt: Seq<u8>, iterations: u32) -> Seq<u8>;

/// The PBKDF2-HMAC-SHA-512 block stream.
pub uninterp spec fn pbkdf2_sha512_stream(password: Seq<u8>, salt: Seq<u8>, iterations: u32) -> Seq<u8>;

/// HKDF output key material for the given hash.
pub open spec fn hkdf_okm(hash: Algo, salt: Seq<u8>, ikm: Seq<u8>, info: Seq<u8>) -> Seq<u8> {
    match hash {
        Algo::Sha1 => hkdf_sha1_okm(salt, ikm, info),
        Algo::Sha256 => hkdf_sha256_okm(salt, ikm, info),
        Algo::Sha384 => hkdf_sha384_okm(salt, ikm, info),
        Algo::Sha512 => hkdf_sha512_okm(salt, ikm, info),
    }
}

/// PBKDF2 block stream for the given hash.
pub open spec fn pbkdf2_stream(hash: Algo, password: Seq<u8>, salt: Seq<u8>, iterations: u32) -> Seq<u8> {
    match hash {
        Algo::Sha1 => pbkdf2_sha1_stream(password, salt, iterations),
        Algo::Sha256 => pbkdf2_sha256_stream(password, salt, iterations),
        Algo::Sha384 => pbkdf2_sha384_stream(password, salt, iterations),
        Algo::Sha512 => pbkdf2_sha512_stream(password, salt, iterations),
    }
}

/// The longest output HKDF-Expand allows: 255 blocks of the hash's output size.
pub open spec fn hkdf_max_len(hash: Algo) -> nat {
    255 * digest_len_of(hash)
}

/// `out` is the first `len` bytes of `stream`, which has at least that many.
pub open spec fn is_prefix_of_len(out: Seq<u8>, stream: Seq<u8>, len: nat) -> bool {
    out.len() == len && len <= stream.len() && out == stream.take(len as int)
}

/// `Hkdf::<Sha1>::new(Some(salt), ikm).expand(info, okm)` into `length` bytes; with `length`
/// within 255 blocks the expansion succeeds and fills the buffer with the first `length` bytes
/// of the output key material.
#[verifier::external_body]
fn hkdf_sha1_expand(salt: &[u8], ikm: &[u8], info: &[u8], length: usize) -> (okm: Vec<u8>)
    requires
        length <= 255 * 20,
    ensures
        is_prefix_of_len(okm@, hkdf_sha1_okm(salt@, ikm@, info@), length as nat),
{
    let mut okm = vec![0u8; length];
    Hkdf::<Sha1>::new(Some(salt), ikm).expand(info, &mut okm).expect("length is within 255 blocks");
    okm
}

/// `Hkdf::<Sha256>` expansion into `length` bytes (at most 255 blocks).
#[verifier::external_body]
fn hkdf_sha256_expand(salt: &[u8], ikm: &[u8], info: &[u8], length: usize) -> (okm: Vec<u8>)
    requires
        length <= 255 * 32,
    ensures
        is_prefix_of_len(okm@, hkdf_sha256_okm(salt@, ikm@, info@), length as nat),
{
    let mut okm = vec![0u8; length];
    Hkdf::<Sha256>::new(Some(salt), ikm).expand(info, &mut okm).expect("length is within 255 blocks");
    okm
}

/// `Hkdf::<Sha384>` expansion into `length` bytes (at most 255 blocks).
#[verifier::external_body]
fn hkdf_sha384_expand(salt: &[u8], ikm: &[u8], info: &[u8], length: usize) -> (okm: Vec<u8>)
    requires
        length <= 255 * 48,
    ensures
        is_prefix_of_len(okm@, hkdf_sha384_okm(salt@, ikm@, info@), length as nat),
{
    let mut okm = vec![0u8; length];
    Hkdf::<Sha384>::new(Some(salt), ikm).expand(info, &mut okm).expect("length is within 255 blocks");
    okm
}

/// `Hkdf::<Sha512>` expansion into `length` bytes (at most 255 blocks).
#[verifier::external_body]
fn hkdf_sha512_expand(salt: &[u8], ikm: &[u8], info: &[u8], length: usize) -> (okm: Vec<u8>)
    requires
        length <= 255 * 64,
    ensures
        is_prefix_of_len(okm@, hkdf_sha512_okm(salt@, ikm@, info@), length as nat),
{
    let mut okm = vec![0u8; length];
    Hkdf::<Sha512>::new(Some(salt), ikm).expand(info, &mut okm).expect("length is within 255 blocks");
    okm
}

/// `pbkdf2::pbkdf2_hmac::<Sha1>` into `length` bytes: block `i` (counted from 1) is computed
/// from the password, salt, iterations and `i` alone, so the output is the first `length`
/// bytes of the block stream. The block counter must fit in a `u32`.
#[verifier::external_body]
fn pbkdf2_sha1(password: &[u8], salt: &[u8], iterations: u32, length: usize) -> (out: Vec<u8>)
    requires
        length <= 20 * 0xffff_ffff,
    ensures
        is_prefix_of_len(out@, pbkdf2_sha1_stream(password@, salt@, iterations), length as nat),
{
    let mut out = vec![0u8; length];
    pbkdf2::pbkdf2_hmac::<Sha1>(password, salt, iterations, &mut out);
    out
}

/// `pbkdf2::pbkdf2_hmac::<Sha256>` into `length` bytes.
#[verifier::external_body]
fn pbkdf2_sha256(password: &[u8], salt: &[u8], iterations: u32, length: usize) -> (out: Vec<u8>)
    requires
        length <= 32 * 0xffff_ffff,
    ensures
        is_prefix_of_len(out@, pbkdf2_sha256_stream(password@, salt@, iterations), length as nat),
{
    let mut out = vec![0u8; length];
    pbkdf2::pbkdf2_hmac::<Sha256>(password, salt, iterations, &mut out);
    out
}

/// `pbkdf2::pbkdf2_hmac::<Sha384>` into `length` bytes.
#[verifier::external_body]
fn pbkdf2_sha384(password: &[u8], salt: &[u8], iterations: u32, length: usize) -> (out: Vec<u8>)
    requires
        length <= 48 * 0xffff_ffff,
    ensures
        is_prefix_of_len(out@, pbkdf2_sha384_stream(password@, salt@, iterations), length as nat),
{
    let mut out = vec![0u8; length];
    pbkdf2::pbkdf2_hmac::<Sha384>(password, salt, iterations, &mut out);
    out
}

/// `pbkdf2::pbkdf2_hmac::<Sha512>` into `length` bytes.
#[verifier::external_body]
fn pbkdf2_sha512(password: &[u8], salt: &[u8], iterations: u32, length: usize) -> (out: Vec<u8>)
    requires
        length <= 64 * 0xffff_ffff,
    ensures
        is_prefix_of_len(out@, pbkdf2_sha512_stream(password@, salt@, iterations), length as nat),
{
    let mut out = vec![0u8; length];
    pbkdf2::pbkdf2_hmac::<Sha512>(password, salt, iterations, &mut out);
    out
}

/// HKDF-Extract-then-Expand into `length` bytes. Fails exactly when `length` exceeds 255
/// blocks of the hash's output.
pub fn hkdf_derive_bits(hash: Algo, salt: &[u8], ikm: &[u8], info: &[u8], length: usize) -> (r: Result<
    Vec<u8>,
    KdfError,
>)
    ensures
        r is Err <==> length > hkdf_max_len(hash),
        r matches Err(e) ==> e == KdfError::InvalidLength,
        r matches Ok(okm) ==> is_prefix_of_len(okm@, hkdf_okm(hash, salt@, ikm@, info@), length as nat),
{
    let max: usize = 255 * hash.output_len();
    if length > max {
        return Err(KdfError::InvalidLength);
    }
    Ok(
        match hash {
            Algo::Sha1 => hkdf_sha1_expand(salt, ikm, info, length),
            Algo::Sha256 => hkdf_sha256_expand(salt, ikm, info, length),
            Algo::Sha384 => hkdf_sha384_expand(salt, ikm, info, length),
            Algo::Sha512 => hkdf_sha512_expand(salt, ikm, info, length),
        },
    )
}

/// PBKDF2-HMAC into `length` bytes; no input makes it fail.
pub fn pbkdf2_derive_bits(hash: Algo, password: &[u8], salt: &[u8], iterations: u32, length: usize) -> (out: Vec<u8>)
    requires
        length <= digest_len_of(hash) * 0xffff_ffff,
    ensures
        is_prefix_of_len(out@, pbkdf2_stream(hash, password@, salt@, iterations), length as nat),
{
    match hash {
        Algo::Sha1 => pbkdf2_sha1(password, salt, iterations, length),
        Algo::Sha256 => pbkdf2_sha256(password, salt, iterations, length),
        Algo::Sha384 => pbkdf2_sha384(password, salt, iterations, length),
        Algo::Sha512 => pbkdf2_sha512(password, salt, iterations, length),
    }
}

/// Deriving fewer bytes gives a prefix of deriving more bytes from the same inputs: two
/// outputs that are both prefixes of one derivation stream agree on the shorter length.
pub proof fn lemma_shorter_derivation_is_prefix(stream: Seq<u8>, short: Seq<u8>, long: Seq<u8>, a: nat, b: nat)
    requires
        a <= b,
        is_prefix_of_len(short, stream, a),
        is_prefix_of_len(long, stream, b),
    ensures
        short == long.take(a as int),
{
    assert(short =~= long.take(a as int)) by {
        assert forall|i: int| 0 <= i < a implies short[i] == long.take(a as int)[i] by {
            assert(short[i] == stream[i]);
            assert(long[i] == stream[i]);
        }
    }
}

} // verus!
