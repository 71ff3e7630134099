//! The SHA family of digests used across WebCrypto (`digest()`, HMAC, HKDF, PBKDF2, RSA).
use vstd::prelude::*;

use sha2::Digest;

use crate::text::eq_ignore_ascii_case;

verus! {

/// A WebCrypto hash algorithm.
#[derive(Debug, Clone, Copy, PartialEq, Eq, Structural)]
pub enum Algo {
    Sha1,
    Sha256,
    Sha384,
    Sha512,
}

/// SHA-1 of a byte string.
pub uninterp spec fn sha1_digest(data: Seq<u8>) -> Seq<u8>;

/// SHA-256 of a byte string.
pub uninterp spec fn sha256_digest(data: Seq<u8>) -> Seq<u8>;

/// SHA-384 of a byte string.
pub uninterp spec fn sha384_digest(data: Seq<u8>) -> Seq<u8>;

/// SHA-512 of a byte string.
pub uninterp spec fn sha512_digest(data: Seq<u8>) -> Seq<u8>;

/// The digest of `data` under `algo`.
pub open spec fn digest_of(algo: Algo, data: Seq<u8>) -> Seq<u8> {
    match algo {
        Algo::Sha1 => sha1_digest(data),
        Algo::Sha256 => sha256_digest(data),
        Algo::Sha384 => sha384_digest(data),
        Algo::Sha512 => sha512_digest(data),
    }
}

/// Output size in bytes of each hash.
pub open spec fn digest_len_of(algo: Algo) -> nat {
    match algo {
        Algo::Sha1 => 20,
        Algo::Sha256 => 32,
        Algo::Sha384 => 48,
        Algo::Sha512 => 64,
    }
}

/// Internal block size in bytes of each hash.
pub open spec fn block_len_of(algo: Algo) -> nat {
    match algo {
        Algo::Sha1 | Algo::Sha256 => 64,
        Algo::Sha384 | Algo::Sha512 => 128,
    }
}

/// The hash a WebCrypto algorithm name denotes, compared without regard to ASCII case.
pub open spec fn algo_named(name: Seq<char>) -> Option<Algo> {
    if crate::text::eq_ascii_ci(name, "SHA-1"@) {
        Some(Algo::Sha1)
    } else if crate::text::eq_ascii_ci(name, "SHA-256"@) {
        Some(Algo::Sha256)
    } else if crate::text::eq_ascii_ci(name, "SHA-384"@) {
        Some(Algo::Sha384)
    } else if crate::text::eq_ascii_ci(name, "SHA-512"@) {
        Some(Algo::Sha512)
    } else {
        None
    }
}

/// `sha1::Sha1::digest`: the output is SHA-1 of `data`, 20 bytes long.
#[verifier::external_body]
fn sha1_hash(data: &[u8]) -> (out: Vec<u8>)
    ensures
        out@ == sha1_digest(data@),
        out@.len() == 20,
{
    sha1::Sha1::digest(data).to_vec()
}

/// `sha2::Sha256::digest`: the output is SHA-256 of `data`, 32 bytes long.
#[verifier::external_body]
fn sha256_hash(data: &[u8]) -> (out: Vec<u8>)
    ensures
        out@ == sha256_digest(data@),
        out@.len() == 32,
{
    sha2::Sha256::digest(data).to_vec()
}

/// `sha2::Sha384::digest`: the output is SHA-384 of `data`, 48 bytes long.
#[verifier::external_body]
fn sha384_hash(data: &[u8]) -> (out: Vec<u8>)
    ensures
        out@ == sha384_digest(data@),
        out@.len() == 48,
{
    sha2::Sha384::digest(data).to_vec()
}

/// `sha2::Sha512::digest`: the output is SHA-512 of `data`, 64 bytes long.
#[verifier::external_body]
fn sha512_hash(data: &[u8]) -> (out: Vec<u8>)
    ensures
        out@ == sha512_digest(data@),
        out@.len() == 64,
{
    sha2::Sha512::digest(data).to_vec()
}

impl Algo {
    /// Looks a hash up by its WebCrypto name (`"SHA-1"`, `"SHA-256"`, `"SHA-384"`,
    /// `"SHA-512"`), ignoring ASCII case.
    pub fn from_name(name: &str) -> (r: Option<Algo>)
        ensures
            r == algo_named(name@),
    {
        if eq_ignore_ascii_case(name, "SHA-1") {
            Some(Algo::Sha1)
        } else if eq_ignore_ascii_case(name, "SHA-256") {
            Some(Algo::Sha256)
        } else if eq_ignore_ascii_case(name, "SHA-384") {
            Some(Algo::Sha384)
        } else if eq_ignore_ascii_case(name, "SHA-512") {
            Some(Algo::Sha512)
        } else {
            None
        }
    }

    /// The canonical WebCrypto name of the hash.
    pub fn name(self) -> (r: &'static str)
        ensures
            algo_named(r@) == Some(self),
    {
        let r = match self {
            Algo::Sha1 => "SHA-1",
            Algo::Sha256 => "SHA-256",
            Algo::Sha384 => "SHA-384",
            Algo::Sha512 => "SHA-512",
        };
        proof {
            reveal_strlit("SHA-1");
            reveal_strlit("SHA-256");
            reveal_strlit("SHA-384");
            reveal_strlit("SHA-512");
            assert(crate::text::eq_ascii_ci(r@, r@));
            if self != Algo::Sha1 {
                assert(crate::text::lower_ascii(r@[4]) != crate::text::lower_ascii("SHA-1"@[4]));
            }
            if self == Algo::Sha384 || self == Algo::Sha512 {
                assert(crate::text::lower_ascii(r@[4]) != crate::text::lower_ascii("SHA-256"@[4]));
            }
            if self == Algo::Sha512 {
                assert(crate::text::lower_ascii(r@[5]) != crate::text::lower_ascii("SHA-384"@[5]));
            }
        }
        r
    }

    /// Output size of the hash in bytes.
    pub fn output_len(self) -> (r: usize)
        ensures
            r == digest_len_of(self),
    {
        match self {
            Algo::Sha1 => 20,
            Algo::Sha256 => 32,
            Algo::Sha384 => 48,
            Algo::Sha512 => 64,
        }
    }
}

/// `digest()`: hashes `data` with `algo`.
pub fn hash_bytes(algo: Algo, data: &[u8]) -> (out: Vec<u8>)
    ensures
        out@ == digest_of(algo, data@),
        out@.len() == digest_len_of(algo),
{
    match algo {
        Algo::Sha1 => sha1_hash(data),
        Algo::Sha256 => sha256_hash(data),
        Algo::Sha384 => sha384_hash(data),
        Algo::Sha512 => sha512_hash(data),
    }
}

} // verus!
