//! The `AlgorithmIdentifier` arguments of the `subtle.*` methods, as plain values, and how an
//! algorithm name is recognised.
use vstd::prelude::*;

use super::digest::Algo;
use super::key::{AesVariant, CryptoKey, EcVariant, RsaVariant};
use crate::text::eq_ignore_ascii_case;

verus! {

/// A hash `AlgorithmIdentifier` (e.g. HMAC's `hash` member).
pub struct HashAlgorithm(pub Algo);

impl HashAlgorithm {
    /// Recognises a hash name (ignoring ASCII case); an unknown name is `None` (a
    /// `NotSupportedError` for the caller).
    pub fn from_name(name: &str) -> (r: Option<HashAlgorithm>)
        ensures
            r matches Some(h) ==> super::digest::algo_named(name@) == Some(h.0),
            r is None <==> super::digest::algo_named(name@) is None,
    {
        match Algo::from_name(name) {
            Some(a) => Some(HashAlgorithm(a)),
            None => None,
        }
    }
}

/// `encrypt()`/`decrypt()`'s algorithm argument: `AesGcmParams`, `AesCbcParams`,
/// `AesCtrParams` or `RsaOaepParams`.
pub enum CipherAlgorithm {
    AesGcm { iv: Vec<u8>, additional_data: Option<Vec<u8>>, tag_length_bits: u16 },
    AesCbc { iv: Vec<u8> },
    AesCtr { counter: Vec<u8>, length_bits: u8 },
    RsaOaep { label: Option<Vec<u8>> },
}

impl CipherAlgorithm {
    /// The AES mode of an AES algorithm.
    pub open spec fn spec_aes_variant(self) -> Option<AesVariant> {
        match self {
            CipherAlgorithm::AesGcm { .. } => Some(AesVariant::Gcm),
            CipherAlgorithm::AesCbc { .. } => Some(AesVariant::Cbc),
            CipherAlgorithm::AesCtr { .. } => Some(AesVariant::Ctr),
            CipherAlgorithm::RsaOaep { .. } => None,
        }
    }

    /// The AES mode of an AES algorithm; `None` for RSA-OAEP.
    pub fn variant(&self) -> (v: Option<AesVariant>)
        ensures
            v == self.spec_aes_variant(),
    {
        match self {
            CipherAlgorithm::AesGcm { .. } => Some(AesVariant::Gcm),
            CipherAlgorithm::AesCbc { .. } => Some(AesVariant::Cbc),
            CipherAlgorithm::AesCtr { .. } => Some(AesVariant::Ctr),
            CipherAlgorithm::RsaOaep { .. } => None,
        }
    }
}

/// `sign()`/`verify()`'s algorithm argument. HMAC and RSASSA-PKCS1-v1_5 take their hash from
/// the key; RSA-PSS carries a salt length and ECDSA a hash.
pub enum SignAlgorithm {
    Hmac,
    RsaSsaPkcs1,
    RsaPss { salt_length: u32 },
    Ecdsa { hash: Algo },
}

/// `deriveBits()`/`deriveKey()`'s algorithm argument: ECDH with the peer's public key, or
/// HKDF/PBKDF2 with their parameters.
pub enum DeriveBitsAlgorithm<'a> {
    Ecdh { public: &'a CryptoKey },
    Hkdf { hash: Algo, salt: Vec<u8>, info: Vec<u8> },
    Pbkdf2 { hash: Algo, salt: Vec<u8>, iterations: u32 },
}

/// The algorithm family an `AlgorithmIdentifier`'s `name` selects.
#[derive(Debug, Clone, Copy, PartialEq, Eq, Structural)]
pub enum AlgorithmName {
    Aes(AesVariant),
    Hmac,
    Rsa(RsaVariant),
    Ec(EcVariant),
    Hkdf,
    Pbkdf2,
}

/// The family a name selects, compared without regard to ASCII case.
pub open spec fn algorithm_named(name: Seq<char>) -> Option<AlgorithmName> {
    if crate::text::eq_ascii_ci(name, "HMAC"@) {
        Some(AlgorithmName::Hmac)
    } else if crate::text::eq_ascii_ci(name, "HKDF"@) {
        Some(AlgorithmName::Hkdf)
    } else if crate::text::eq_ascii_ci(name, "PBKDF2"@) {
        Some(AlgorithmName::Pbkdf2)
    } else if super::key::aes_named(name) is Some {
        Some(AlgorithmName::Aes(super::key::aes_named(name)->0))
    } else if super::key::rsa_named(name) is Some {
        Some(AlgorithmName::Rsa(super::key::rsa_named(name)->0))
    } else if super::key::ec_named(name) is Some {
        Some(AlgorithmName::Ec(super::key::ec_named(name)->0))
    } else {
        None
    }
}

impl AlgorithmName {
    /// Recognises an algorithm name; an unknown one is `None` (a `NotSupportedError` for the
    /// caller).
    pub fn classify(name: &str) -> (r: Option<AlgorithmName>)
        ensures
            r == algorithm_named(name@),
    {
        if eq_ignore_ascii_case(name, "HMAC") {
            return Some(AlgorithmName::Hmac);
        }
        if eq_ignore_ascii_case(name, "HKDF") {
            return Some(AlgorithmName::Hkdf);
        }
        if eq_ignore_ascii_case(name, "PBKDF2") {
            return Some(AlgorithmName::Pbkdf2);
        }
        if let Some(v) = AesVariant::from_name(name) {
            return Some(AlgorithmName::Aes(v));
        }
        if let Some(v) = RsaVariant::from_name(name) {
            return Some(AlgorithmName::Rsa(v));
        }
        if let Some(v) = EcVariant::from_name(name) {
            return Some(AlgorithmName::Ec(v));
        }
        None
    }
}

} // verus!
