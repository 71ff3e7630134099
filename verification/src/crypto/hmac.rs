//! HMAC sign/verify over raw key bytes, for each WebCrypto hash.
use vstd::prelude::*;

use hmac::{Hmac, Mac};
use sha1::Sha1;
use sha2::{Sha256, Sha384, Sha512};

use super::digest::Algo;

verus! {

/// HMAC-SHA-1 of `data` under `key`.
pub uninterp spec fn hmac_sha1_tag(key: Seq<u8>, data: Seq<u8>) -> Seq<u8>;

/// HMAC-SHA-256 of `data` under `key`.
pub uninterp spec fn hmac_sha256_tag(key: Seq<u8>, data: Seq<u8>) -> Seq<u8>;

/// HMAC-SHA-384 of `data` under `key`.
pub uninterp spec fn hmac_sha384_tag(key: Seq<u8>, data: Seq<u8>) -> Seq<u8>;

/// HMAC-SHA-512 of `data` under `key`.
pub uninterp spec fn hmac_sha512_tag(key: Seq<u8>, data: Seq<u8>) -> Seq<u8>;

/// The HMAC tag of `data` under `key` with the given hash.
pub open spec fn hmac_tag(hash: Algo, key: Seq<u8>, data: Seq<u8>) -> Seq<u8> {
    match hash {
        Algo::Sha1 => hmac_sha1_tag(key, data),
        Algo::Sha256 => hmac_sha256_tag(key, data),
        Algo::Sha384 => hmac_sha384_tag(key, data),
        Algo::Sha512 => hmac_sha512_tag(key, data),
    }
}

/// Whether `verify()` accepts `signature`: it must be exactly the tag.
pub open spec fn hmac_accepts(hash: Algo, key: Seq<u8>, data: Seq<u8>, signature: Seq<u8>) -> bool {
    signature == hmac_tag(hash, key, data)
}

/// `Hmac::<Sha1>` keyed with `key` (any length is accepted), fed `data`, finalized: the
/// output is the HMAC-SHA-1 tag, 20 bytes long.
#[verifier::external_body]
fn hmac_sha1_sign(key: &[u8], data: &[u8]) -> (out: Vec<u8>)
    ensures
        out@ == hmac_sha1_tag(key@, data@),
        out@.len() == 20,
{
    let mut mac = <Hmac<Sha1> as Mac>::new_from_slice(key).expect("HMAC accepts any key length");
    mac.update(data);
    mac.finalize().into_bytes().to_vec()
}

/// `Hmac::<Sha256>` keyed with `key`, fed `data`, finalized: the HMAC-SHA-256 tag, 32 bytes.
#[verifier::external_body]
fn hmac_sha256_sign(key: &[u8], data: &[u8]) -> (out: Vec<u8>)
    ensures
        out@ == hmac_sha256_tag(key@, data@),
        out@.len() == 32,
{
    let mut mac = <Hmac<Sha256> as Mac>::new_from_slice(key).expect("HMAC accepts any key length");
    mac.update(data);
    mac.finalize().into_bytes().to_vec()
}

/// `Hmac::<Sha384>` keyed with `key`, fed `data`, finalized: the HMAC-SHA-384 tag, 48 bytes.
#[verifier::external_body]
fn hmac_sha384_sign(key: &[u8], data: &[u8]) -> (out: Vec<u8>)
    ensures
        out@ == hmac_sha384_tag(key@, data@),
        out@.len() == 48,
{
    let mut mac = <Hmac<Sha384> as Mac>::new_from_slice(key).expect("HMAC accepts any key length");
    mac.update(data);
    mac.finalize().into_bytes().to_vec()
}

/// `Hmac::<Sha512>` keyed with `key`, fed `data`, finalized: the HMAC-SHA-512 tag, 64 bytes.
#[verifier::external_body]
fn hmac_sha512_sign(key: &[u8], data: &[u8]) -> (out: Vec<u8>)
    ensures
        out@ == hmac_sha512_tag(key@, data@),
        out@.len() == 64,
{
    let mut mac = <Hmac<Sha512> as Mac>::new_from_slice(key).expect("HMAC accepts any key length");
    mac.update(data);
    mac.finalize().into_bytes().to_vec()
}

/// `Mac::verify_slice` on `Hmac::<Sha1>`: accepts exactly when `signature` has the tag's length
/// and equals the HMAC-SHA-1 tag (compared in constant time).
#[verifier::external_body]
fn hmac_sha1_verify(key: &[u8], data: &[u8], signature: &[u8]) -> (ok: bool)
    ensures
        ok == (signature@ == hmac_sha1_tag(key@, data@)),
{
    let Ok(mut mac) = <Hmac<Sha1> as Mac>::new_from_slice(key) else { return false };
    mac.update(data);
    mac.verify_slice(signature).is_ok()
}

/// `Mac::verify_slice` on `Hmac::<Sha256>`: accepts exactly the HMAC-SHA-256 tag.
#[verifier::external_body]
fn hmac_sha256_verify(key: &[u8], data: &[u8], signature: &[u8]) -> (ok: bool)
    ensures
        ok == (signature@ == hmac_sha256_tag(key@, data@)),
{
    let Ok(mut mac) = <Hmac<Sha256> as Mac>::new_from_slice(key) else { return false };
    mac.update(data);
    mac.verify_slice(signature).is_ok()
}

/// `Mac::verify_slice` on `Hmac::<Sha384>`: accepts exactly the HMAC-SHA-384 tag.
#[verifier::external_body]
fn hmac_sha384_verify(key: &[u8], data: &[u8], signature: &[u8]) -> (ok: bool)
    ensures
        ok == (signature@ == hmac_sha384_tag(key@, data@)),
{
    let Ok(mut mac) = <Hmac<Sha384> as Mac>::new_from_slice(key) else { return false };
    mac.update(data);
    mac.verify_slice(signature).is_ok()
}

/// `Mac::verify_slice` on `Hmac::<Sha512>`: accepts exactly the HMAC-SHA-512 tag.
#[verifier::external_body]
fn hmac_sha512_verify(key: &[u8], data: &[u8], signature: &[u8]) -> (ok: bool)
    ensures
        ok == (signature@ == hmac_sha512_tag(key@, data@)),
{
    let Ok(mut mac) = <Hmac<Sha512> as Mac>::new_from_slice(key) else { return false };
    mac.update(data);
    mac.verify_slice(signature).is_ok()
}

/// `sign()` for HMAC: the tag of `data` under `key`.
pub fn sign(hash: Algo, key: &[u8], data: &[u8]) -> (out: Vec<u8>)
    ensures
        out@ == hmac_tag(hash, key@, data@),
        out@.len() == super::digest::digest_len_of(hash),
{
    match hash {
        Algo::Sha1 => hmac_sha1_sign(key, data),
        Algo::Sha256 => hmac_sha256_sign(key, data),
        Algo::Sha384 => hmac_sha384_sign(key, data),
        Algo::Sha512 => hmac_sha512_sign(key, data),
    }
}

/// `verify()` for HMAC: `true` exactly when `signature` is the tag; never an error.
pub fn verify(hash: Algo, key: &[u8], data: &[u8], signature: &[u8]) -> (ok: bool)
    ensures
        ok == hmac_accepts(hash, key@, data@, signature@),
{
    match hash {
        Algo::Sha1 => hmac_sha1_verify(key, data, signature),
        Algo::Sha256 => hmac_sha256_verify(key, data, signature),
        Algo::Sha384 => hmac_sha384_verify(key, data, signature),
        Algo::Sha512 => hmac_sha512_verify(key, data, signature),
    }
}

/// `HmacKeyGenParams.length`'s default: the block size of the hash, in bits.
pub fn default_key_length_bits(hash: Algo) -> (bits: u32)
    ensures
        bits == 8 * super::digest::block_len_of(hash),
{
    match hash {
        Algo::Sha1 | Algo::Sha256 => 512,
        Algo::Sha384 | Algo::Sha512 => 1024,
    }
}

/// A tag produced by `sign` is accepted by `verify` with the same hash, key and data.
pub proof fn lemma_verify_accepts_signed_tag(hash: Algo, key: Seq<u8>, data: Seq<u8>)
    ensures
        hmac_accepts(hash, key, data, hmac_tag(hash, key, data)),
{
}

/// `verify` rejects every byte string other than the tag, including any truncation of it.
pub proof fn lemma_verify_rejects_other_signatures(
    hash: Algo,
    key: Seq<u8>,
    data: Seq<u8>,
    signature: Seq<u8>,
)
    requires
        signature != hmac_tag(hash, key, data),
    ensures
        !hmac_accepts(hash, key, data, signature),
{
}

} // verus!
