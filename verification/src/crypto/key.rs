//! The WebCrypto `CryptoKey` model: algorithm identifiers, key usages, key material, and
//! `generateKey`/`importKey`/`exportKey` over plain values.
use vstd::prelude::*;
use vstd::string::StringExecFns;

use rand::RngCore;

use super::digest::Algo;
use super::ec::{EcCurve, EcError, EcKeyPair};
use super::jwk::{Jwk, JwkError};
use super::rsa::{RsaError, RsaKeyPair};
use super::aes::CipherError;
use crate::text::{eq_ignore_ascii_case, owned, str_equals};

verus! {

/// Which of AES-GCM/CBC/CTR a key or cipher operation targets.
#[derive(Debug, Clone, Copy, PartialEq, Eq, Structural)]
pub enum AesVariant {
    Gcm,
    Cbc,
    Ctr,
}

/// Which RSA algorithm a key or operation targets.
#[derive(Debug, Clone, Copy, PartialEq, Eq, Structural)]
pub enum RsaVariant {
    Pkcs1v15,
    Oaep,
    Pss,
}

/// Which elliptic-curve algorithm a key or operation targets.
#[derive(Debug, Clone, Copy, PartialEq, Eq, Structural)]
pub enum EcVariant {
    Ecdsa,
    Ecdh,
}

/// Which key-derivation function a derive-only key (HKDF/PBKDF2 base key) targets.
#[derive(Debug, Clone, Copy, PartialEq, Eq, Structural)]
pub enum DeriveKind {
    Hkdf,
    Pbkdf2,
}

/// `CryptoKey.type`.
#[derive(Debug, Clone, Copy, PartialEq, Eq, Structural)]
pub enum KeyType {
    Secret,
    Private,
    Public,
}

/// One entry of `CryptoKey.usages` / the `keyUsages` parameter.
#[derive(Debug, Clone, Copy, PartialEq, Eq, Structural)]
pub enum KeyUsage {
    Encrypt,
    Decrypt,
    Sign,
    Verify,
    DeriveKey,
    DeriveBits,
    WrapKey,
    UnwrapKey,
}

/// A key import/export format.
#[derive(Debug, Clone, Copy, PartialEq, Eq, Structural)]
pub enum KeyFormat {
    Raw,
    Pkcs8,
    Spki,
    Jwk,
}

/// The algorithm name a string denotes, compared without regard to ASCII case.
pub open spec fn aes_named(name: Seq<char>) -> Option<AesVariant> {
    if crate::text::eq_ascii_ci(name, "AES-GCM"@) {
        Some(AesVariant::Gcm)
    } else if crate::text::eq_ascii_ci(name, "AES-CBC"@) {
        Some(AesVariant::Cbc)
    } else if crate::text::eq_ascii_ci(name, "AES-CTR"@) {
        Some(AesVariant::Ctr)
    } else {
        None
    }
}

/// The RSA algorithm a string denotes, compared without regard to ASCII case.
pub open spec fn rsa_named(name: Seq<char>) -> Option<RsaVariant> {
    if crate::text::eq_ascii_ci(name, "RSASSA-PKCS1-v1_5"@) {
        Some(RsaVariant::Pkcs1v15)
    } else if crate::text::eq_ascii_ci(name, "RSA-OAEP"@) {
        Some(RsaVariant::Oaep)
    } else if crate::text::eq_ascii_ci(name, "RSA-PSS"@) {
        Some(RsaVariant::Pss)
    } else {
        None
    }
}

/// The EC algorithm a string denotes, compared without regard to ASCII case.
pub open spec fn ec_named(name: Seq<char>) -> Option<EcVariant> {
    if crate::text::eq_ascii_ci(name, "ECDSA"@) {
        Some(EcVariant::Ecdsa)
    } else if crate::text::eq_ascii_ci(name, "ECDH"@) {
        Some(EcVariant::Ecdh)
    } else {
        None
    }
}

impl AesVariant {
    /// Looks an AES algorithm up by name, ignoring ASCII case.
    pub fn from_name(name: &str) -> (r: Option<AesVariant>)
        ensures
            r == aes_named(name@),
    {
        if eq_ignore_ascii_case(name, "AES-GCM") {
            Some(AesVariant::Gcm)
        } else if eq_ignore_ascii_case(name, "AES-CBC") {
            Some(AesVariant::Cbc)
        } else if eq_ignore_ascii_case(name, "AES-CTR") {
            Some(AesVariant::Ctr)
        } else {
            None
        }
    }

    /// The algorithm's canonical name, as a spec.
    pub open spec fn spec_name(self) -> Seq<char> {
        match self {
            AesVariant::Gcm => "AES-GCM"@,
            AesVariant::Cbc => "AES-CBC"@,
            AesVariant::Ctr => "AES-CTR"@,
        }
    }

    /// The algorithm's canonical name.
    pub fn name(self) -> (s: &'static str)
        ensures
            s@ == self.spec_name(),
    {
        match self {
            AesVariant::Gcm => "AES-GCM",
            AesVariant::Cbc => "AES-CBC",
            AesVariant::Ctr => "AES-CTR",
        }
    }

    /// The mode suffix of the JWK `alg` tag, as a spec.
    pub open spec fn spec_jwk_suffix(self) -> Seq<char> {
        match self {
            AesVariant::Gcm => "GCM"@,
            AesVariant::Cbc => "CBC"@,
            AesVariant::Ctr => "CTR"@,
        }
    }

    fn jwk_suffix(self) -> (s: &'static str)
        ensures
            s@ == self.spec_jwk_suffix(),
    {
        match self {
            AesVariant::Gcm => "GCM",
            AesVariant::Cbc => "CBC",
            AesVariant::Ctr => "CTR",
        }
    }
}

impl RsaVariant {
    /// Looks an RSA algorithm up by name, ignoring ASCII case.
    pub fn from_name(name: &str) -> (r: Option<RsaVariant>)
        ensures
            r == rsa_named(name@),
    {
        if eq_ignore_ascii_case(name, "RSASSA-PKCS1-v1_5") {
            Some(RsaVariant::Pkcs1v15)
        } else if eq_ignore_ascii_case(name, "RSA-OAEP") {
            Some(RsaVariant::Oaep)
        } else if eq_ignore_ascii_case(name, "RSA-PSS") {
            Some(RsaVariant::Pss)
        } else {
            None
        }
    }

    /// The algorithm's canonical name, as a spec.
    pub open spec fn spec_name(self) -> Seq<char> {
        match self {
            RsaVariant::Pkcs1v15 => "RSASSA-PKCS1-v1_5"@,
            RsaVariant::Oaep => "RSA-OAEP"@,
            RsaVariant::Pss => "RSA-PSS"@,
        }
    }

    /// The algorithm's canonical name.
    pub fn name(self) -> (s: &'static str)
        ensures
            s@ == self.spec_name(),
    {
        match self {
            RsaVariant::Pkcs1v15 => "RSASSA-PKCS1-v1_5",
            RsaVariant::Oaep => "RSA-OAEP",
            RsaVariant::Pss => "RSA-PSS",
        }
    }
}

impl EcVariant {
    /// Looks an EC algorithm up by name, ignoring ASCII case.
    pub fn from_name(name: &str) -> (r: Option<EcVariant>)
        ensures
            r == ec_named(name@),
    {
        if eq_ignore_ascii_case(name, "ECDSA") {
            Some(EcVariant::Ecdsa)
        } else if eq_ignore_ascii_case(name, "ECDH") {
            Some(EcVariant::Ecdh)
        } else {
            None
        }
    }

    /// The algorithm's canonical name, as a spec.
    pub open spec fn spec_name(self) -> Seq<char> {
        match self {
            EcVariant::Ecdsa => "ECDSA"@,
            EcVariant::Ecdh => "ECDH"@,
        }
    }

    /// The algorithm's canonical name.
    pub fn name(self) -> (s: &'static str)
        ensures
            s@ == self.spec_name(),
    {
        match self {
            EcVariant::Ecdsa => "ECDSA",
            EcVariant::Ecdh => "ECDH",
        }
    }
}

impl DeriveKind {
    /// The algorithm's name, as a spec.
    pub open spec fn spec_name(self) -> Seq<char> {
        match self {
            DeriveKind::Hkdf => "HKDF"@,
            DeriveKind::Pbkdf2 => "PBKDF2"@,
        }
    }

    /// The algorithm's name.
    pub fn name(self) -> (s: &'static str)
        ensures
            s@ == self.spec_name(),
    {
        match self {
            DeriveKind::Hkdf => "HKDF",
            DeriveKind::Pbkdf2 => "PBKDF2",
        }
    }
}

impl KeyType {
    /// `CryptoKey.type`'s string, as a spec.
    pub open spec fn spec_str(self) -> Seq<char> {
        match self {
            KeyType::Secret => "secret"@,
            KeyType::Private => "private"@,
            KeyType::Public => "public"@,
        }
    }

    /// `CryptoKey.type`'s string.
    pub fn as_str(self) -> (s: &'static str)
        ensures
            s@ == self.spec_str(),
    {
        match self {
            KeyType::Secret => "secret",
            KeyType::Private => "private",
            KeyType::Public => "public",
        }
    }
}

impl KeyUsage {
    /// The usage's string, as a spec.
    pub open spec fn spec_str(self) -> Seq<char> {
        match self {
            KeyUsage::Encrypt => "encrypt"@,
            KeyUsage::Decrypt => "decrypt"@,
            KeyUsage::Sign => "sign"@,
            KeyUsage::Verify => "verify"@,
            KeyUsage::DeriveKey => "deriveKey"@,
            KeyUsage::DeriveBits => "deriveBits"@,
            KeyUsage::WrapKey => "wrapKey"@,
            KeyUsage::UnwrapKey => "unwrapKey"@,
        }
    }

    /// The usage's string.
    pub fn as_str(self) -> (s: &'static str)
        ensures
            s@ == self.spec_str(),
    {
        match self {
            KeyUsage::Encrypt => "encrypt",
            KeyUsage::Decrypt => "decrypt",
            KeyUsage::Sign => "sign",
            KeyUsage::Verify => "verify",
            KeyUsage::DeriveKey => "deriveKey",
            KeyUsage::DeriveBits => "deriveBits",
            KeyUsage::WrapKey => "wrapKey",
            KeyUsage::UnwrapKey => "unwrapKey",
        }
    }

    /// Parses a usage string exactly (case-sensitive); an unknown one is `None` (a
    /// `SyntaxError` for the caller).
    pub fn parse(s: &str) -> (r: Option<KeyUsage>)
        ensures
            r matches Some(u) ==> u.spec_str() == s@,
            r is None ==> forall|u: KeyUsage| u.spec_str() != s@,
    {
        let all = [
            KeyUsage::Encrypt,
            KeyUsage::Decrypt,
            KeyUsage::Sign,
            KeyUsage::Verify,
            KeyUsage::DeriveKey,
            KeyUsage::DeriveBits,
            KeyUsage::WrapKey,
            KeyUsage::UnwrapKey,
        ];
        let mut i: usize = 0;
        while i < 8
            invariant
                0 <= i <= 8,
                all@ == seq![
                    KeyUsage::Encrypt,
                    KeyUsage::Decrypt,
                    KeyUsage::Sign,
                    KeyUsage::Verify,
                    KeyUsage::DeriveKey,
                    KeyUsage::DeriveBits,
                    KeyUsage::WrapKey,
                    KeyUsage::UnwrapKey,
                ],
                forall|k: int| 0 <= k < i ==> all@[k].spec_str() != s@,
            decreases 8 - i,
        {
            let u = all[i];
            if str_equals(u.as_str(), s) {
                return Some(u);
            }
            i = i + 1;
        }
        proof {
            assert forall|u: KeyUsage| u.spec_str() != s@ by {
                match u {
                    KeyUsage::Encrypt => assert(all@[0] == u),
                    KeyUsage::Decrypt => assert(all@[1] == u),
                    KeyUsage::Sign => assert(all@[2] == u),
                    KeyUsage::Verify => assert(all@[3] == u),
                    KeyUsage::DeriveKey => assert(all@[4] == u),
                    KeyUsage::DeriveBits => assert(all@[5] == u),
                    KeyUsage::WrapKey => assert(all@[6] == u),
                    KeyUsage::UnwrapKey => assert(all@[7] == u),
                }
            }
        }
        None
    }
}

impl KeyFormat {
    /// The format's string, as a spec.
    pub open spec fn spec_str(self) -> Seq<char> {
        match self {
            KeyFormat::Raw => "raw"@,
            KeyFormat::Pkcs8 => "pkcs8"@,
            KeyFormat::Spki => "spki"@,
            KeyFormat::Jwk => "jwk"@,
        }
    }

    /// Parses a format string exactly; an unknown one is `None` (a `TypeError` for the
    /// caller).
    pub fn parse(s: &str) -> (r: Option<KeyFormat>)
        ensures
            r matches Some(f) ==> f.spec_str() == s@,
            r is None ==> s@ != "raw"@ && s@ != "pkcs8"@ && s@ != "spki"@ && s@ != "jwk"@,
    {
        if str_equals(s, "raw") {
            Some(KeyFormat::Raw)
        } else if str_equals(s, "pkcs8") {
            Some(KeyFormat::Pkcs8)
        } else if str_equals(s, "spki") {
            Some(KeyFormat::Spki)
        } else if str_equals(s, "jwk") {
            Some(KeyFormat::Jwk)
        } else {
            None
        }
    }
}


/// The algorithm a key was generated or imported under (the spec's `KeyAlgorithm`
/// dictionaries).
#[derive(Debug)]
pub enum KeyAlgorithm {
    Aes { name: AesVariant, length: u16 },
    Hmac { hash: Algo, length: u32 },
    RsaHashed { variant: RsaVariant, modulus_length: u32, public_exponent: Vec<u8>, hash: Algo },
    Ec { variant: EcVariant, named_curve: EcCurve },
    /// HKDF/PBKDF2 base keys: just `{name}`; their hash is chosen per derivation.
    DeriveOnly(DeriveKind),
}

/// Two algorithms are the same, comparing the exponent by its bytes.
pub open spec fn same_algorithm(a: KeyAlgorithm, b: KeyAlgorithm) -> bool {
    match (a, b) {
        (
            KeyAlgorithm::RsaHashed { variant: v1, modulus_length: m1, public_exponent: e1, hash: h1 },
            KeyAlgorithm::RsaHashed { variant: v2, modulus_length: m2, public_exponent: e2, hash: h2 },
        ) => v1 == v2 && m1 == m2 && e1@ == e2@ && h1 == h2,
        (KeyAlgorithm::RsaHashed { .. }, _) => false,
        _ => a == b,
    }
}

impl KeyAlgorithm {
    /// A copy of the algorithm.
    pub fn duplicate(&self) -> (r: KeyAlgorithm)
        ensures
            same_algorithm(r, *self),
    {
        match self {
            KeyAlgorithm::Aes { name, length } => KeyAlgorithm::Aes { name: *name, length: *length },
            KeyAlgorithm::Hmac { hash, length } => KeyAlgorithm::Hmac { hash: *hash, length: *length },
            KeyAlgorithm::RsaHashed { variant, modulus_length, public_exponent, hash } => KeyAlgorithm::RsaHashed {
                variant: *variant,
                modulus_length: *modulus_length,
                public_exponent: public_exponent.clone(),
                hash: *hash,
            },
            KeyAlgorithm::Ec { variant, named_curve } => KeyAlgorithm::Ec { variant: *variant, named_curve: *named_curve },
            KeyAlgorithm::DeriveOnly(kind) => KeyAlgorithm::DeriveOnly(*kind),
        }
    }

    /// The JWK `alg` tag for the algorithm, as a spec.
    pub open spec fn spec_jwk_alg_tag(self) -> Option<Seq<char>> {
        match self {
            KeyAlgorithm::Aes { name, length } => Some(
                (if length == 128 {
                    "A128"@
                } else if length == 192 {
                    "A192"@
                } else if length == 256 {
                    "A256"@
                } else {
                    "A???"@
                }) + name.spec_jwk_suffix(),
            ),
            KeyAlgorithm::Hmac { hash, .. } => Some(
                match hash {
                    Algo::Sha1 => "HS1"@,
                    Algo::Sha256 => "HS256"@,
                    Algo::Sha384 => "HS384"@,
                    Algo::Sha512 => "HS512"@,
                },
            ),
            KeyAlgorithm::RsaHashed { variant, hash, .. } => Some(
                match (variant, hash) {
                    (RsaVariant::Pkcs1v15, Algo::Sha1) => "RS1"@,
                    (RsaVariant::Pkcs1v15, Algo::Sha256) => "RS256"@,
                    (RsaVariant::Pkcs1v15, Algo::Sha384) => "RS384"@,
                    (RsaVariant::Pkcs1v15, Algo::Sha512) => "RS512"@,
                    (RsaVariant::Oaep, Algo::Sha1) => "RSA-OAEP"@,
                    (RsaVariant::Oaep, Algo::Sha256) => "RSA-OAEP-256"@,
                    (RsaVariant::Oaep, Algo::Sha384) => "RSA-OAEP-384"@,
                    (RsaVariant::Oaep, Algo::Sha512) => "RSA-OAEP-512"@,
                    (RsaVariant::Pss, Algo::Sha1) => "PS1"@,
                    (RsaVariant::Pss, Algo::Sha256) => "PS256"@,
                    (RsaVariant::Pss, Algo::Sha384) => "PS384"@,
                    (RsaVariant::Pss, Algo::Sha512) => "PS512"@,
                },
            ),
            KeyAlgorithm::Ec { .. } => None,
            KeyAlgorithm::DeriveOnly(_) => None,
        }
    }

    /// The `alg` tag WebCrypto's JWK mapping uses for this algorithm (e.g. `"A128GCM"`,
    /// `"HS256"`, `"RSA-OAEP-256"`); `None` for EC and derive-only keys, which JWK carries
    /// without `alg`.
    pub fn jwk_alg_tag(&self) -> (r: Option<String>)
        ensures
            crate::crypto::jwk::member(r) == self.spec_jwk_alg_tag(),
    {
        match self {
            KeyAlgorithm::Aes { name, length } => {
                let prefix = if *length == 128 {
                    "A128"
                } else if *length == 192 {
                    "A192"
                } else if *length == 256 {
                    "A256"
                } else {
                    "A???"
                };
                Some(owned(prefix).concat(name.jwk_suffix()))
            },
            KeyAlgorithm::Hmac { hash, .. } => Some(
                owned(
                    match hash {
                        Algo::Sha1 => "HS1",
                        Algo::Sha256 => "HS256",
                        Algo::Sha384 => "HS384",
                        Algo::Sha512 => "HS512",
                    },
                ),
            ),
            KeyAlgorithm::RsaHashed { variant, hash, .. } => Some(
                owned(
                    match (variant, hash) {
                        (RsaVariant::Pkcs1v15, Algo::Sha1) => "RS1",
                        (RsaVariant::Pkcs1v15, Algo::Sha256) => "RS256",
                        (RsaVariant::Pkcs1v15, Algo::Sha384) => "RS384",
                        (RsaVariant::Pkcs1v15, Algo::Sha512) => "RS512",
                        (RsaVariant::Oaep, Algo::Sha1) => "RSA-OAEP",
                        (RsaVariant::Oaep, Algo::Sha256) => "RSA-OAEP-256",
                        (RsaVariant::Oaep, Algo::Sha384) => "RSA-OAEP-384",
                        (RsaVariant::Oaep, Algo::Sha512) => "RSA-OAEP-512",
                        (RsaVariant::Pss, Algo::Sha1) => "PS1",
                        (RsaVariant::Pss, Algo::Sha256) => "PS256",
                        (RsaVariant::Pss, Algo::Sha384) => "PS384",
                        (RsaVariant::Pss, Algo::Sha512) => "PS512",
                    },
                ),
            ),
            KeyAlgorithm::Ec { .. } => None,
            KeyAlgorithm::DeriveOnly(_) => None,
        }
    }
}

/// Key material, tagged by kind.
pub enum KeyMaterial {
    Aes(Vec<u8>),
    Hmac(Vec<u8>),
    Rsa(RsaKeyPair),
    Ec(EcKeyPair),
    /// The raw bytes (or password, for PBKDF2) behind an HKDF/PBKDF2 base key.
    Derive(Vec<u8>),
}

impl KeyMaterial {
    /// The bytes of symmetric material.
    pub open spec fn spec_bytes(self) -> Seq<u8> {
        match self {
            KeyMaterial::Aes(b) => b@,
            KeyMaterial::Hmac(b) => b@,
            KeyMaterial::Derive(b) => b@,
            _ => Seq::empty(),
        }
    }

    /// Whether the material is symmetric (AES, HMAC or derive-only bytes).
    pub open spec fn is_symmetric(self) -> bool {
        self is Aes || self is Hmac || self is Derive
    }
}

/// What a key's algorithm, material, type and extractability must agree on: symmetric
/// material is a secret key under the matching algorithm; RSA and EC halves are private or
/// public keys under an RSA or EC algorithm (on the material's curve); derive-only keys are
/// never extractable.
pub open spec fn key_fits(ty: KeyType, extractable: bool, algorithm: KeyAlgorithm, material: KeyMaterial) -> bool {
    match material {
        KeyMaterial::Aes(_) => algorithm is Aes && ty == KeyType::Secret,
        KeyMaterial::Hmac(_) => algorithm is Hmac && ty == KeyType::Secret,
        KeyMaterial::Derive(_) => algorithm is DeriveOnly && ty == KeyType::Secret && !extractable,
        KeyMaterial::Rsa(pair) => algorithm is RsaHashed && (match pair {
            RsaKeyPair::Private(_) => ty == KeyType::Private,
            RsaKeyPair::Public(_) => ty == KeyType::Public,
        }),
        KeyMaterial::Ec(pair) => (algorithm matches KeyAlgorithm::Ec { named_curve, .. } && named_curve
            == pair.curve_of()) && (match pair {
            EcKeyPair::Private { .. } => ty == KeyType::Private,
            EcKeyPair::Public { .. } => ty == KeyType::Public,
        }),
    }
}

/// A `CryptoKey`: type, extractability, usages, algorithm and material. Only this module
/// builds one, always with [`key_fits`] holding.
pub struct CryptoKey {
    ty: KeyType,
    extractable: bool,
    usages: Vec<KeyUsage>,
    algorithm: KeyAlgorithm,
    material: KeyMaterial,
}

impl CryptoKey {
    #[verifier::type_invariant]
    spec fn wf(self) -> bool {
        key_fits(self.ty, self.extractable, self.algorithm, self.material)
    }

    /// `CryptoKey.type`.
    pub closed spec fn spec_type(self) -> KeyType {
        self.ty
    }

    /// `CryptoKey.extractable`.
    pub closed spec fn spec_extractable(self) -> bool {
        self.extractable
    }

    /// `CryptoKey.usages`.
    pub closed spec fn spec_usages(self) -> Seq<KeyUsage> {
        self.usages@
    }

    /// The key's algorithm.
    pub closed spec fn spec_algorithm(self) -> KeyAlgorithm {
        self.algorithm
    }

    /// The key's material.
    pub closed spec fn spec_material(self) -> KeyMaterial {
        self.material
    }

    fn create(
        ty: KeyType,
        extractable: bool,
        usages: Vec<KeyUsage>,
        algorithm: KeyAlgorithm,
        material: KeyMaterial,
    ) -> (k: CryptoKey)
        requires
            key_fits(ty, extractable, algorithm, material),
        ensures
            k.spec_type() == ty,
            k.spec_extractable() == extractable,
            k.spec_usages() == usages@,
            k.spec_algorithm() == algorithm,
            k.spec_material() == material,
    {
        CryptoKey { ty, extractable, usages, algorithm, material }
    }

    /// `CryptoKey.type`.
    pub fn key_type(&self) -> (t: KeyType)
        ensures
            t == self.spec_type(),
    {
        self.ty
    }

    /// `CryptoKey.extractable`.
    pub fn extractable(&self) -> (b: bool)
        ensures
            b == self.spec_extractable(),
    {
        self.extractable
    }

    /// `CryptoKey.usages`.
    pub fn usages(&self) -> (u: &Vec<KeyUsage>)
        ensures
            u@ == self.spec_usages(),
    {
        &self.usages
    }

    /// The key's algorithm.
    pub fn algorithm(&self) -> (a: &KeyAlgorithm)
        ensures
            *a == self.spec_algorithm(),
    {
        &self.algorithm
    }

    /// The key's material, which always fits its algorithm and type.
    pub fn material(&self) -> (m: &KeyMaterial)
        ensures
            *m == self.spec_material(),
            key_fits(self.spec_type(), self.spec_extractable(), self.spec_algorithm(), self.spec_material()),
    {
        proof {
            use_type_invariant(self);
        }
        &self.material
    }
}

/// The name of the `DOMException` (or `TypeError`) a failed operation raises.
#[derive(Debug, Clone, Copy, PartialEq, Eq, Structural)]
pub enum ErrorName {
    OperationError,
    DataError,
    SyntaxError,
    NotSupportedError,
    InvalidAccessError,
    TypeError,
}

impl ErrorName {
    /// The name's string, as a spec.
    pub open spec fn spec_str(self) -> Seq<char> {
        match self {
            ErrorName::OperationError => "OperationError"@,
            ErrorName::DataError => "DataError"@,
            ErrorName::SyntaxError => "SyntaxError"@,
            ErrorName::NotSupportedError => "NotSupportedError"@,
            ErrorName::InvalidAccessError => "InvalidAccessError"@,
            ErrorName::TypeError => "TypeError"@,
        }
    }

    /// The name's string.
    pub fn as_str(self) -> (s: &'static str)
        ensures
            s@ == self.spec_str(),
    {
        match self {
            ErrorName::OperationError => "OperationError",
            ErrorName::DataError => "DataError",
            ErrorName::SyntaxError => "SyntaxError",
            ErrorName::NotSupportedError => "NotSupportedError",
            ErrorName::InvalidAccessError => "InvalidAccessError",
            ErrorName::TypeError => "TypeError",
        }
    }
}

/// Why a WebCrypto operation was refused.
#[derive(Debug, Clone, PartialEq, Eq)]
pub enum CryptoError {
    /// The key's `usages` lack the usage the operation needs.
    UsageNotAllowed(KeyUsage),
    /// The key's algorithm isn't the one the operation names.
    AlgorithmMismatch,
    /// An HMAC operation on a key that isn't an HMAC key.
    NotHmacKey,
    /// The operation needs a key of this type.
    WrongKeyType(KeyType),
    /// An HKDF/PBKDF2 derivation on a key that isn't that kind of base key.
    NotDeriveKey(DeriveKind),
    /// `exportKey` on a non-extractable key.
    NotExtractable,
    /// This export format needs a public key.
    ExportNeedsPublic(KeyFormat),
    /// This export format needs a private key.
    ExportNeedsPrivate(KeyFormat),
    /// The format isn't supported for this key type.
    UnsupportedFormat(KeyFormat),
    /// `generateKey` for AES with a length other than 128/192/256.
    InvalidAesLength(u16),
    /// `importKey` for AES with key data of a size other than 16, 24 or 32 bytes (the size,
    /// in bytes).
    InvalidAesKeyData(usize),
    /// A requested usage is valid for neither half of the key pair.
    InvalidUsage(KeyUsage),
    /// HKDF/PBKDF2 base keys must not be extractable.
    DeriveKeyExtractable(DeriveKind),
    /// HKDF/PBKDF2 need a non-zero `length` that is a multiple of 8.
    DeriveLengthRequired(DeriveKind),
    /// PBKDF2 with zero iterations.
    ZeroIterations,
    /// The requested ECDH length is longer than the shared secret.
    LengthTooLong,
    /// The requested HKDF length is more than 255 hash blocks.
    HkdfLengthTooLong,
    /// `deriveKey` can only derive an AES or HMAC key.
    DeriveKeyUnsupported,
    /// `wrapKey`/`unwrapKey` don't support the `"jwk"` format.
    JwkWrapUnsupported,
    /// The JWK's `crv` names no supported curve.
    UnknownCurve(String),
    /// The JWK's `crv` is not the requested `namedCurve`.
    CurveMismatch,
    /// The key data isn't the shape the format needs (bytes for raw/pkcs8/spki, an object for
    /// jwk).
    KeyDataType,
    Cipher(CipherError),
    Rsa(RsaError),
    Ec(EcError),
    Jwk(JwkError),
}

/// The exception name each refusal raises.
pub open spec fn error_name_of(e: CryptoError) -> ErrorName {
    match e {
        CryptoError::UsageNotAllowed(_) => ErrorName::InvalidAccessError,
        CryptoError::AlgorithmMismatch => ErrorName::InvalidAccessError,
        CryptoError::NotHmacKey => ErrorName::InvalidAccessError,
        CryptoError::WrongKeyType(_) => ErrorName::InvalidAccessError,
        CryptoError::NotDeriveKey(_) => ErrorName::InvalidAccessError,
        CryptoError::NotExtractable => ErrorName::InvalidAccessError,
        CryptoError::ExportNeedsPublic(_) => ErrorName::InvalidAccessError,
        CryptoError::ExportNeedsPrivate(_) => ErrorName::InvalidAccessError,
        CryptoError::UnsupportedFormat(_) => ErrorName::NotSupportedError,
        CryptoError::InvalidAesLength(_) => ErrorName::OperationError,
        CryptoError::InvalidAesKeyData(_) => ErrorName::DataError,
        CryptoError::InvalidUsage(_) => ErrorName::SyntaxError,
        CryptoError::DeriveKeyExtractable(_) => ErrorName::SyntaxError,
        CryptoError::DeriveLengthRequired(_) => ErrorName::OperationError,
        CryptoError::ZeroIterations => ErrorName::OperationError,
        CryptoError::LengthTooLong => ErrorName::OperationError,
        CryptoError::HkdfLengthTooLong => ErrorName::OperationError,
        CryptoError::DeriveKeyUnsupported => ErrorName::NotSupportedError,
        CryptoError::JwkWrapUnsupported => ErrorName::NotSupportedError,
        CryptoError::UnknownCurve(_) => ErrorName::DataError,
        CryptoError::CurveMismatch => ErrorName::DataError,
        CryptoError::KeyDataType => ErrorName::TypeError,
        CryptoError::Cipher(c) => match c {
            CipherError::UnsupportedTagLength => ErrorName::NotSupportedError,
            _ => ErrorName::OperationError,
        },
        CryptoError::Rsa(r) => match r {
            RsaError::InvalidKey => ErrorName::DataError,
            RsaError::OperationFailed => ErrorName::OperationError,
            RsaError::UnsupportedHash => ErrorName::NotSupportedError,
        },
        CryptoError::Ec(r) => match r {
            EcError::InvalidKey => ErrorName::DataError,
            EcError::OperationFailed => ErrorName::OperationError,
        },
        CryptoError::Jwk(_) => ErrorName::DataError,
    }
}

impl CryptoError {
    /// The exception name this refusal raises.
    pub fn name(&self) -> (n: ErrorName)
        ensures
            n == error_name_of(*self),
    {
        match self {
            CryptoError::UsageNotAllowed(_) => ErrorName::InvalidAccessError,
            CryptoError::AlgorithmMismatch => ErrorName::InvalidAccessError,
            CryptoError::NotHmacKey => ErrorName::InvalidAccessError,
            CryptoError::WrongKeyType(_) => ErrorName::InvalidAccessError,
            CryptoError::NotDeriveKey(_) => ErrorName::InvalidAccessError,
            CryptoError::NotExtractable => ErrorName::InvalidAccessError,
            CryptoError::ExportNeedsPublic(_) => ErrorName::InvalidAccessError,
            CryptoError::ExportNeedsPrivate(_) => ErrorName::InvalidAccessError,
            CryptoError::UnsupportedFormat(_) => ErrorName::NotSupportedError,
            CryptoError::InvalidAesLength(_) => ErrorName::OperationError,
            CryptoError::InvalidAesKeyData(_) => ErrorName::DataError,
            CryptoError::InvalidUsage(_) => ErrorName::SyntaxError,
            CryptoError::DeriveKeyExtractable(_) => ErrorName::SyntaxError,
            CryptoError::DeriveLengthRequired(_) => ErrorName::OperationError,
            CryptoError::ZeroIterations => ErrorName::OperationError,
            CryptoError::LengthTooLong => ErrorName::OperationError,
            CryptoError::HkdfLengthTooLong => ErrorName::OperationError,
            CryptoError::DeriveKeyUnsupported => ErrorName::NotSupportedError,
            CryptoError::JwkWrapUnsupported => ErrorName::NotSupportedError,
            CryptoError::UnknownCurve(_) => ErrorName::DataError,
            CryptoError::CurveMismatch => ErrorName::DataError,
            CryptoError::KeyDataType => ErrorName::TypeError,
                CryptoError::Cipher(c) => match c {
                CipherError::UnsupportedTagLength => ErrorName::NotSupportedError,
                _ => ErrorName::OperationError,
            },
            CryptoError::Rsa(r) => match r {
                RsaError::InvalidKey => ErrorName::DataError,
                RsaError::OperationFailed => ErrorName::OperationError,
                RsaError::UnsupportedHash => ErrorName::NotSupportedError,
            },
            CryptoError::Ec(r) => match r {
                EcError::InvalidKey => ErrorName::DataError,
                EcError::OperationFailed => ErrorName::OperationError,
            },
            CryptoError::Jwk(_) => ErrorName::DataError,
        }
    }
}


// ---------------------------------------------------------------------------------------------
// Usages of a generated key pair
// ---------------------------------------------------------------------------------------------

/// The requested usages that `allowed` permits, in request order.
pub open spec fn keep_allowed(usages: Seq<KeyUsage>, allowed: Seq<KeyUsage>) -> Seq<KeyUsage>
    decreases usages.len(),
{
    if usages.len() == 0 {
        usages
    } else if allowed.contains(usages.last()) {
        keep_allowed(usages.drop_last(), allowed).push(usages.last())
    } else {
        keep_allowed(usages.drop_last(), allowed)
    }
}

/// `u` is permitted for neither half.
pub open spec fn invalid_for_pair(u: KeyUsage, priv_allowed: Seq<KeyUsage>, pub_allowed: Seq<KeyUsage>) -> bool {
    !priv_allowed.contains(u) && !pub_allowed.contains(u)
}

/// `i` is the first requested usage permitted for neither half.
pub open spec fn is_first_invalid(
    usages: Seq<KeyUsage>,
    priv_allowed: Seq<KeyUsage>,
    pub_allowed: Seq<KeyUsage>,
    i: int,
) -> bool {
    &&& 0 <= i < usages.len()
    &&& invalid_for_pair(usages[i], priv_allowed, pub_allowed)
    &&& forall|k: int| 0 <= k < i ==> !invalid_for_pair(#[trigger] usages[k], priv_allowed, pub_allowed)
}

/// Every requested usage is permitted for some half.
pub open spec fn all_usages_valid(usages: Seq<KeyUsage>, priv_allowed: Seq<KeyUsage>, pub_allowed: Seq<KeyUsage>) -> bool {
    forall|k: int| 0 <= k < usages.len() ==> !invalid_for_pair(#[trigger] usages[k], priv_allowed, pub_allowed)
}

fn contains_usage(list: &[KeyUsage], u: KeyUsage) -> (r: bool)
    ensures
        r == list@.contains(u),
{
    let mut i: usize = 0;
    while i < list.len()
        invariant
            i <= list@.len(),
            forall|k: int| 0 <= k < i ==> list@[k] != u,
        decreases list.len() - i,
    {
        if list[i] == u {
            assert(list@[i as int] == u);
            return true;
        }
        i = i + 1;
    }
    false
}

fn keep_usages(usages: &Vec<KeyUsage>, allowed: &[KeyUsage]) -> (r: Vec<KeyUsage>)
    ensures
        r@ == keep_allowed(usages@, allowed@),
{
    let mut out: Vec<KeyUsage> = Vec::new();
    let mut i: usize = 0;
    while i < usages.len()
        invariant
            i <= usages@.len(),
            out@ == keep_allowed(usages@.subrange(0, i as int), allowed@),
        decreases usages.len() - i,
    {
        let u = usages[i];
        proof {
            assert(usages@.subrange(0, i + 1).drop_last() =~= usages@.subrange(0, i as int));
        }
        if contains_usage(allowed, u) {
            out.push(u);
        }
        i = i + 1;
    }
    assert(usages@.subrange(0, usages@.len() as int) =~= usages@);
    out
}

/// A usage survives the filter exactly when it was requested and is allowed.
pub proof fn lemma_keep_allowed_contains(usages: Seq<KeyUsage>, allowed: Seq<KeyUsage>, u: KeyUsage)
    ensures
        keep_allowed(usages, allowed).contains(u) <==> usages.contains(u) && allowed.contains(u),
    decreases usages.len(),
{
    if usages.len() > 0 {
        lemma_keep_allowed_contains(usages.drop_last(), allowed, u);
        let rest = keep_allowed(usages.drop_last(), allowed);
        if usages.contains(u) && u != usages.last() {
            let i = choose|i: int| 0 <= i < usages.len() && usages[i] == u;
            assert(usages.drop_last()[i] == u);
        }
        if usages.drop_last().contains(u) {
            let i = choose|i: int| 0 <= i < usages.drop_last().len() && usages.drop_last()[i] == u;
            assert(usages[i] == u);
        }
        if allowed.contains(usages.last()) {
            assert(rest.push(usages.last())[rest.len() as int] == usages.last());
            if rest.contains(u) {
                let i = choose|i: int| 0 <= i < rest.len() && rest[i] == u;
                assert(rest.push(usages.last())[i] == u);
            }
            if rest.push(usages.last()).contains(u) && u != usages.last() {
                let i = choose|i: int| 0 <= i < rest.len() + 1 && rest.push(usages.last())[i] == u;
                assert(rest[i] == u);
            }
        }
        if usages.last() == u {
            assert(usages[usages.len() - 1] == u);
        }
    }
}

/// Splits requested usages between the halves of a key pair; a usage permitted for neither
/// half is refused with [`CryptoError::InvalidUsage`] (a `SyntaxError`), naming the first one.
pub fn split_usages(
    usages: &Vec<KeyUsage>,
    priv_allowed: &[KeyUsage],
    pub_allowed: &[KeyUsage],
) -> (r: Result<(Vec<KeyUsage>, Vec<KeyUsage>), CryptoError>)
    ensures
        r is Ok <==> all_usages_valid(usages@, priv_allowed@, pub_allowed@),
        r matches Err(e) ==> exists|i: int|
            is_first_invalid(usages@, priv_allowed@, pub_allowed@, i) && e == CryptoError::InvalidUsage(
                usages@[i],
            ),
        r matches Ok((p, q)) ==> p@ == keep_allowed(usages@, priv_allowed@) && q@ == keep_allowed(
            usages@,
            pub_allowed@,
        ),
{
    let mut i: usize = 0;
    while i < usages.len()
        invariant
            i <= usages@.len(),
            forall|k: int| 0 <= k < i ==> !invalid_for_pair(#[trigger] usages@[k], priv_allowed@, pub_allowed@),
        decreases usages.len() - i,
    {
        let u = usages[i];
        if !contains_usage(priv_allowed, u) && !contains_usage(pub_allowed, u) {
            assert(is_first_invalid(usages@, priv_allowed@, pub_allowed@, i as int));
            return Err(CryptoError::InvalidUsage(u));
        }
        i = i + 1;
    }
    Ok((keep_usages(usages, priv_allowed), keep_usages(usages, pub_allowed)))
}

/// Each requested usage of a valid request ends up on a half that permits it: the private
/// half gets the usages the private side allows, the public half the others it allows.
pub proof fn lemma_split_covers_request(
    usages: Seq<KeyUsage>,
    priv_allowed: Seq<KeyUsage>,
    pub_allowed: Seq<KeyUsage>,
    u: KeyUsage,
)
    requires
        all_usages_valid(usages, priv_allowed, pub_allowed),
        usages.contains(u),
    ensures
        keep_allowed(usages, priv_allowed).contains(u) || keep_allowed(usages, pub_allowed).contains(u),
        keep_allowed(usages, priv_allowed).contains(u) ==> priv_allowed.contains(u),
        keep_allowed(usages, pub_allowed).contains(u) ==> pub_allowed.contains(u),
{
    lemma_keep_allowed_contains(usages, priv_allowed, u);
    lemma_keep_allowed_contains(usages, pub_allowed, u);
    let i = choose|i: int| 0 <= i < usages.len() && usages[i] == u;
    assert(!invalid_for_pair(usages[i], priv_allowed, pub_allowed));
}


// ---------------------------------------------------------------------------------------------
// generateKey
// ---------------------------------------------------------------------------------------------

/// `generateKey()`'s algorithm argument.
pub enum KeyGenAlgorithm {
    /// `AesKeyGenParams`.
    Aes { variant: AesVariant, length: u16 },
    /// `HmacKeyGenParams`; `length` defaults to the hash's block size.
    Hmac { hash: Algo, length: Option<u32> },
    /// `RsaHashedKeyGenParams`.
    RsaHashed { variant: RsaVariant, modulus_length: u32, public_exponent: Vec<u8>, hash: Algo },
    /// `EcKeyGenParams`.
    Ec { variant: EcVariant, named_curve: EcCurve },
}

/// What `generateKey()` produces: a secret key, or a key pair.
pub enum GeneratedKey {
    Secret(CryptoKey),
    Pair { public_key: CryptoKey, private_key: CryptoKey },
}

/// `k` has the given type, extractability, usages and algorithm.
pub open spec fn key_is(k: CryptoKey, ty: KeyType, extractable: bool, usages: Seq<KeyUsage>, alg: KeyAlgorithm) -> bool {
    &&& k.spec_type() == ty
    &&& k.spec_extractable() == extractable
    &&& k.spec_usages() == usages
    &&& same_algorithm(k.spec_algorithm(), alg)
}

/// The usages an RSA private key may carry.
pub open spec fn rsa_priv_allowed(v: RsaVariant) -> Seq<KeyUsage> {
    match v {
        RsaVariant::Oaep => seq![KeyUsage::Decrypt, KeyUsage::UnwrapKey],
        _ => seq![KeyUsage::Sign],
    }
}

/// The usages an RSA public key may carry.
pub open spec fn rsa_pub_allowed(v: RsaVariant) -> Seq<KeyUsage> {
    match v {
        RsaVariant::Oaep => seq![KeyUsage::Encrypt, KeyUsage::WrapKey],
        _ => seq![KeyUsage::Verify],
    }
}

/// The usages an EC private key may carry.
pub open spec fn ec_priv_allowed(v: EcVariant) -> Seq<KeyUsage> {
    match v {
        EcVariant::Ecdsa => seq![KeyUsage::Sign],
        EcVariant::Ecdh => seq![KeyUsage::DeriveKey, KeyUsage::DeriveBits],
    }
}

/// The usages an EC public key may carry (an ECDH public key carries none).
pub open spec fn ec_pub_allowed(v: EcVariant) -> Seq<KeyUsage> {
    match v {
        EcVariant::Ecdsa => seq![KeyUsage::Verify],
        EcVariant::Ecdh => Seq::empty(),
    }
}

fn rsa_allowed(v: RsaVariant) -> (r: (Vec<KeyUsage>, Vec<KeyUsage>))
    ensures
        r.0@ == rsa_priv_allowed(v),
        r.1@ == rsa_pub_allowed(v),
{
    let r = match v {
        RsaVariant::Oaep => (vec![KeyUsage::Decrypt, KeyUsage::UnwrapKey], vec![KeyUsage::Encrypt, KeyUsage::WrapKey]),
        _ => (vec![KeyUsage::Sign], vec![KeyUsage::Verify]),
    };
    assert(r.0@ =~= rsa_priv_allowed(v));
    assert(r.1@ =~= rsa_pub_allowed(v));
    r
}

fn ec_allowed(v: EcVariant) -> (r: (Vec<KeyUsage>, Vec<KeyUsage>))
    ensures
        r.0@ == ec_priv_allowed(v),
        r.1@ == ec_pub_allowed(v),
{
    let r = match v {
        EcVariant::Ecdsa => (vec![KeyUsage::Sign], vec![KeyUsage::Verify]),
        EcVariant::Ecdh => (vec![KeyUsage::DeriveKey, KeyUsage::DeriveBits], Vec::new()),
    };
    assert(r.0@ =~= ec_priv_allowed(v));
    assert(r.1@ =~= ec_pub_allowed(v));
    r
}

/// The HMAC key length `generateKey` uses: the requested one, or the hash's block size.
pub open spec fn hmac_length(hash: Algo, length: Option<u32>) -> u32 {
    match length {
        Some(l) => l,
        None => (8 * super::digest::block_len_of(hash)) as u32,
    }
}

/// The character of a decimal digit.
pub open spec fn digit_char(d: nat) -> char {
    if d == 0 {
        '0'
    } else if d == 1 {
        '1'
    } else if d == 2 {
        '2'
    } else if d == 3 {
        '3'
    } else if d == 4 {
        '4'
    } else if d == 5 {
        '5'
    } else if d == 6 {
        '6'
    } else if d == 7 {
        '7'
    } else if d == 8 {
        '8'
    } else {
        '9'
    }
}

/// A number from 100 to 999 written in decimal.
pub open spec fn three_digits(n: nat) -> Seq<char> {
    seq![digit_char(n / 100), digit_char((n / 10) % 10), digit_char(n % 10)]
}

/// The JWK `alg` of an HMAC key names its hash: `"HS"` followed by the digest size in bits for
/// SHA-256, SHA-384 and SHA-512 (`"HS256"`, `"HS384"`, `"HS512"`), `"HS1"` for SHA-1, whatever
/// the key length; so two HMAC keys carry the same tag exactly when they use the same hash.
pub proof fn hmac_jwk_alg_names_its_hash(h1: Algo, l1: u32, h2: Algo, l2: u32)
    ensures
        h1 != Algo::Sha1 ==> (KeyAlgorithm::Hmac { hash: h1, length: l1 }).spec_jwk_alg_tag() == Some(
            "HS"@ + three_digits(8 * super::digest::digest_len_of(h1)),
        ),
        h1 == Algo::Sha1 ==> (KeyAlgorithm::Hmac { hash: h1, length: l1 }).spec_jwk_alg_tag() == Some("HS1"@),
        ((KeyAlgorithm::Hmac { hash: h1, length: l1 }).spec_jwk_alg_tag() == (KeyAlgorithm::Hmac {
            hash: h2,
            length: l2,
        }).spec_jwk_alg_tag()) == (h1 == h2),
{
    reveal_strlit("HS");
    reveal_strlit("HS1");
    reveal_strlit("HS256");
    reveal_strlit("HS384");
    reveal_strlit("HS512");
    assert("HS"@ + three_digits(256) =~= "HS256"@);
    assert("HS"@ + three_digits(384) =~= "HS384"@);
    assert("HS"@ + three_digits(512) =~= "HS512"@);
    assert("HS1"@.len() == 3);
    assert("HS256"@[2] != "HS384"@[2]);
    assert("HS256"@[2] != "HS512"@[2]);
    assert("HS384"@[2] != "HS512"@[2]);
}

/// The JWK `alg` of an RSA key names both its scheme and its hash: two RSA keys carry the same
/// tag exactly when they use the same scheme (RSASSA-PKCS1-v1_5, RSA-OAEP or RSA-PSS) and the
/// same hash, whatever their moduli and exponents.
pub proof fn rsa_jwk_alg_names_scheme_and_hash(a1: KeyAlgorithm, a2: KeyAlgorithm)
    requires
        a1 is RsaHashed,
        a2 is RsaHashed,
    ensures
        (a1.spec_jwk_alg_tag() == a2.spec_jwk_alg_tag()) == (a1->RsaHashed_variant == a2->RsaHashed_variant
            && a1->RsaHashed_hash == a2->RsaHashed_hash),
{
    reveal_strlit("RS1");
    reveal_strlit("RS256");
    reveal_strlit("RS384");
    reveal_strlit("RS512");
    reveal_strlit("RSA-OAEP");
    reveal_strlit("RSA-OAEP-256");
    reveal_strlit("RSA-OAEP-384");
    reveal_strlit("RSA-OAEP-512");
    reveal_strlit("PS1");
    reveal_strlit("PS256");
    reveal_strlit("PS384");
    reveal_strlit("PS512");
    assert("RS1"@.len() == 3);
    assert("RS256"@.len() == 5);
    assert("RS384"@.len() == 5);
    assert("RS512"@.len() == 5);
    assert("RSA-OAEP"@.len() == 8);
    assert("RSA-OAEP-256"@.len() == 12);
    assert("RSA-OAEP-384"@.len() == 12);
    assert("RSA-OAEP-512"@.len() == 12);
    assert("PS1"@.len() == 3);
    assert("PS256"@.len() == 5);
    assert("PS384"@.len() == 5);
    assert("PS512"@.len() == 5);
    assert("RS1"@[0] != "PS1"@[0]);
    assert("RS256"@[2] != "RS384"@[2]);
    assert("RS256"@[2] != "RS512"@[2]);
    assert("RS256"@[0] != "PS256"@[0]);
    assert("RS256"@[0] != "PS384"@[0]);
    assert("RS256"@[0] != "PS512"@[0]);
    assert("RS384"@[2] != "RS512"@[2]);
    assert("RS384"@[0] != "PS256"@[0]);
    assert("RS384"@[0] != "PS384"@[0]);
    assert("RS384"@[0] != "PS512"@[0]);
    assert("RS512"@[0] != "PS256"@[0]);
    assert("RS512"@[0] != "PS384"@[0]);
    assert("RS512"@[0] != "PS512"@[0]);
    assert("RSA-OAEP-256"@[9] != "RSA-OAEP-384"@[9]);
    assert("RSA-OAEP-256"@[9] != "RSA-OAEP-512"@[9]);
    assert("RSA-OAEP-384"@[9] != "RSA-OAEP-512"@[9]);
    assert("PS256"@[2] != "PS384"@[2]);
    assert("PS256"@[2] != "PS512"@[2]);
    assert("PS384"@[2] != "PS512"@[2]);
}

/// An AES length `generateKey`/`importKey` accept.
pub open spec fn valid_aes_bits(length: u16) -> bool {
    length == 128 || length == 192 || length == 256
}

/// An RSA generation request is one whose prime search ends (see
/// [`super::rsa::generation_ends`]).
pub open spec fn keygen_exponent_ok(algorithm: KeyGenAlgorithm) -> bool {
    algorithm matches KeyGenAlgorithm::RsaHashed { modulus_length, public_exponent, .. }
        ==> super::rsa::generation_ends(modulus_length as nat, public_exponent@)
}

/// An RSA request the key check may accept: at least 12 bits, an exponent from 3 to 2^33 - 1
/// no longer than the modulus (always so for other algorithms).
pub open spec fn keygen_exponent_accepted(algorithm: KeyGenAlgorithm) -> bool {
    algorithm matches KeyGenAlgorithm::RsaHashed { modulus_length, public_exponent, .. } ==> {
        &&& modulus_length >= 12
        &&& super::rsa::exponent_in_range(public_exponent@)
        &&& super::rsa::be_bit_len(public_exponent@) <= modulus_length
    }
}

/// An RSA request the key check always accepts, whatever primes are drawn (always so for
/// other algorithms).
pub open spec fn keygen_surely_accepted(algorithm: KeyGenAlgorithm) -> bool {
    algorithm matches KeyGenAlgorithm::RsaHashed { modulus_length, public_exponent, .. }
        ==> super::rsa::generation_succeeds(modulus_length as nat, public_exponent@)
}

/// The key algorithm a generation request produces.
pub open spec fn generated_algorithm(algorithm: KeyGenAlgorithm) -> KeyAlgorithm {
    match algorithm {
        KeyGenAlgorithm::Aes { variant, length } => KeyAlgorithm::Aes { name: variant, length },
        KeyGenAlgorithm::Hmac { hash, length } => KeyAlgorithm::Hmac { hash, length: hmac_length(hash, length) },
        KeyGenAlgorithm::RsaHashed { variant, modulus_length, public_exponent, hash } => KeyAlgorithm::RsaHashed {
            variant,
            modulus_length,
            public_exponent,
            hash,
        },
        KeyGenAlgorithm::Ec { variant, named_curve } => KeyAlgorithm::Ec { variant, named_curve },
    }
}

/// The key halves of a generated pair get the usages their side allows.
pub open spec fn pair_usages(algorithm: KeyGenAlgorithm) -> (Seq<KeyUsage>, Seq<KeyUsage>) {
    match algorithm {
        KeyGenAlgorithm::RsaHashed { variant, .. } => (rsa_priv_allowed(variant), rsa_pub_allowed(variant)),
        KeyGenAlgorithm::Ec { variant, .. } => (ec_priv_allowed(variant), ec_pub_allowed(variant)),
        _ => (Seq::empty(), Seq::empty()),
    }
}

/// The secret key a symmetric generation request produced.
pub open spec fn generated_secret(g: GeneratedKey, algorithm: KeyGenAlgorithm, extractable: bool, usages: Seq<KeyUsage>) -> bool {
    g matches GeneratedKey::Secret(k) && key_is(k, KeyType::Secret, extractable, usages, generated_algorithm(algorithm))
        && (match algorithm {
        KeyGenAlgorithm::Aes { length, .. } => k.spec_material() matches KeyMaterial::Aes(b) && b@.len() == length / 8,
        KeyGenAlgorithm::Hmac { hash, length } => k.spec_material() matches KeyMaterial::Hmac(b) && b@.len() == (
        hmac_length(hash, length) as nat + 7) / 8,
        _ => false,
    })
}

/// The key pair an asymmetric generation request produced: the private half keeps the
/// requested extractability and the usages the private side allows, the public half is always
/// extractable with the usages the public side allows, and the halves belong together.
pub open spec fn generated_pair(g: GeneratedKey, algorithm: KeyGenAlgorithm, extractable: bool, usages: Seq<KeyUsage>) -> bool {
    g matches GeneratedKey::Pair { public_key, private_key } && key_is(
        private_key,
        KeyType::Private,
        extractable,
        keep_allowed(usages, pair_usages(algorithm).0),
        generated_algorithm(algorithm),
    ) && key_is(
        public_key,
        KeyType::Public,
        true,
        keep_allowed(usages, pair_usages(algorithm).1),
        generated_algorithm(algorithm),
    ) && (match algorithm {
        KeyGenAlgorithm::RsaHashed { modulus_length, public_exponent, .. } => match (
            private_key.spec_material(),
            public_key.spec_material(),
        ) {
            (KeyMaterial::Rsa(RsaKeyPair::Private(k)), KeyMaterial::Rsa(RsaKeyPair::Public(p))) => super::rsa::generated_as_requested(
                k@,
                modulus_length as nat,
                public_exponent@,
            ) && super::rsa::sound_private_key(k@) && p@ == super::rsa::public_of(k@),
            _ => false,
        },
        KeyGenAlgorithm::Ec { named_curve, .. } => match (private_key.spec_material(), public_key.spec_material()) {
            (KeyMaterial::Ec(EcKeyPair::Private { curve, d, point }), KeyMaterial::Ec(pk)) => curve == named_curve
                && super::ec::ec_scalar_private(curve, d@) == Some((d@, point@)) && super::ec::is_public_key(
                pk,
                curve,
                point@,
            ),
            _ => false,
        },
        _ => false,
    })
}

/// `generateKey()`.
///
/// - AES: a random key of `length` bits; any length but 128/192/256 is
///   [`CryptoError::InvalidAesLength`].
/// - HMAC: a random key of `length` bits (rounded up to whole bytes), `length` defaulting to
///   the hash's block size.
/// - RSA/EC: a fresh key pair whose halves split the requested usages. An RSA request below
///   12 bits, or whose exponent is outside 3 to 2^33 - 1 or not below the modulus, is refused
///   ([`CryptoError::Rsa`], a `DataError`); then a usage neither half allows is
///   [`CryptoError::InvalidUsage`] (a `SyntaxError`).
pub fn generate_key(algorithm: KeyGenAlgorithm, extractable: bool, usages: Vec<KeyUsage>) -> (r: Result<
    GeneratedKey,
    CryptoError,
>)
    requires
        keygen_exponent_ok(algorithm),
    ensures
        algorithm matches KeyGenAlgorithm::Aes { length, .. } ==> {
            &&& (r is Err <==> !valid_aes_bits(length))
            &&& (r matches Err(e) ==> e == CryptoError::InvalidAesLength(length))
        },
        algorithm is Hmac ==> r is Ok,
        algorithm is Aes || algorithm is Hmac ==> (r matches Ok(g) ==> generated_secret(g, algorithm, extractable, usages@)),
        algorithm is RsaHashed || algorithm is Ec ==> (r matches Ok(g) ==> generated_pair(g, algorithm, extractable, usages@)),
        algorithm is RsaHashed || algorithm is Ec ==> (r is Ok ==> keygen_exponent_accepted(algorithm) && all_usages_valid(
            usages@,
            pair_usages(algorithm).0,
            pair_usages(algorithm).1,
        )),
        algorithm is RsaHashed || algorithm is Ec ==> (keygen_surely_accepted(algorithm) && all_usages_valid(
            usages@,
            pair_usages(algorithm).0,
            pair_usages(algorithm).1,
        ) ==> r is Ok),
        !keygen_exponent_accepted(algorithm) ==> r == Err::<GeneratedKey, CryptoError>(CryptoError::Rsa(RsaError::InvalidKey)),
        algorithm is RsaHashed || algorithm is Ec ==> (r matches Err(e) ==> (e == CryptoError::Rsa(RsaError::InvalidKey)
            || e is InvalidUsage)),
        algorithm is RsaHashed || algorithm is Ec ==> (r matches Err(e) ==> (e is InvalidUsage ==> (error_name_of(e)
            == ErrorName::SyntaxError && exists|i: int|
            is_first_invalid(usages@, pair_usages(algorithm).0, pair_usages(algorithm).1, i) && e
                == CryptoError::InvalidUsage(usages@[i])))),
        (algorithm is RsaHashed || algorithm is Ec) && keygen_surely_accepted(algorithm) && !all_usages_valid(
            usages@,
            pair_usages(algorithm).0,
            pair_usages(algorithm).1,
        ) ==> (r matches Err(e) && error_name_of(e) == ErrorName::SyntaxError && exists|i: int|
            is_first_invalid(usages@, pair_usages(algorithm).0, pair_usages(algorithm).1, i) && e
                == CryptoError::InvalidUsage(usages@[i])),
{
    match algorithm {
        KeyGenAlgorithm::Aes { variant, length } => {
            if !(length == 128 || length == 192 || length == 256) {
                return Err(CryptoError::InvalidAesLength(length));
            }
            let bytes = super::random::random_bytes((length / 8) as usize);
            let alg = KeyAlgorithm::Aes { name: variant, length };
            Ok(GeneratedKey::Secret(CryptoKey::create(KeyType::Secret, extractable, usages, alg, KeyMaterial::Aes(bytes))))
        },
        KeyGenAlgorithm::Hmac { hash, length } => {
            let length_bits: u32 = match length {
                Some(l) => l,
                None => super::hmac::default_key_length_bits(hash),
            };
            let byte_len: u32 = length_bits / 8 + if length_bits % 8 == 0 { 0 } else { 1 };
            let bytes = super::random::random_bytes(byte_len as usize);
            let alg = KeyAlgorithm::Hmac { hash, length: length_bits };
            Ok(GeneratedKey::Secret(CryptoKey::create(KeyType::Secret, extractable, usages, alg, KeyMaterial::Hmac(bytes))))
        },
        KeyGenAlgorithm::RsaHashed { variant, modulus_length, public_exponent, hash } => {
            let (private, public) = match super::rsa::generate_keypair(modulus_length, &public_exponent) {
                Ok(pair) => pair,
                Err(e) => return Err(CryptoError::Rsa(e)),
            };
            let (priv_allowed, pub_allowed) = rsa_allowed(variant);
            let (priv_usages, pub_usages) = match split_usages(&usages, priv_allowed.as_slice(), pub_allowed.as_slice()) {
                Ok(split) => split,
                Err(e) => {
                    // the refused usage is the first one neither half of this algorithm allows
                    assert(pair_usages(algorithm) == (priv_allowed@, pub_allowed@));
                    let ghost i = choose|i: int|
                        is_first_invalid(usages@, priv_allowed@, pub_allowed@, i) && e == CryptoError::InvalidUsage(usages@[i]);
                    assert(is_first_invalid(usages@, pair_usages(algorithm).0, pair_usages(algorithm).1, i));
                    return Err(e);
                },
            };
            let alg = KeyAlgorithm::RsaHashed { variant, modulus_length, public_exponent, hash };
            let alg2 = alg.duplicate();
            let private_key = CryptoKey::create(
                KeyType::Private,
                extractable,
                priv_usages,
                alg,
                KeyMaterial::Rsa(RsaKeyPair::Private(private)),
            );
            let public_key = CryptoKey::create(
                KeyType::Public,
                true,
                pub_usages,
                alg2,
                KeyMaterial::Rsa(RsaKeyPair::Public(public)),
            );
            Ok(GeneratedKey::Pair { public_key, private_key })
        },
        KeyGenAlgorithm::Ec { variant, named_curve } => {
            let (private, public) = super::ec::generate_keypair(named_curve);
            let (priv_allowed, pub_allowed) = ec_allowed(variant);
            let (priv_usages, pub_usages) = match split_usages(&usages, priv_allowed.as_slice(), pub_allowed.as_slice()) {
                Ok(split) => split,
                Err(e) => {
                    // the refused usage is the first one neither half of this algorithm allows
                    assert(pair_usages(algorithm) == (priv_allowed@, pub_allowed@));
                    let ghost i = choose|i: int|
                        is_first_invalid(usages@, priv_allowed@, pub_allowed@, i) && e == CryptoError::InvalidUsage(usages@[i]);
                    assert(is_first_invalid(usages@, pair_usages(algorithm).0, pair_usages(algorithm).1, i));
                    return Err(e);
                },
            };
            let private_key = CryptoKey::create(
                KeyType::Private,
                extractable,
                priv_usages,
                KeyAlgorithm::Ec { variant, named_curve },
                KeyMaterial::Ec(private),
            );
            let public_key = CryptoKey::create(
                KeyType::Public,
                true,
                pub_usages,
                KeyAlgorithm::Ec { variant, named_curve },
                KeyMaterial::Ec(public),
            );
            Ok(GeneratedKey::Pair { public_key, private_key })
        },
    }
}


// ---------------------------------------------------------------------------------------------
// importKey
// ---------------------------------------------------------------------------------------------

/// `importKey()`'s key data: bytes for `"raw"`/`"pkcs8"`/`"spki"`, a JWK for `"jwk"`.
pub enum KeyData {
    Bytes(Vec<u8>),
    Jwk(Jwk),
}

/// `importKey()`'s algorithm argument.
pub enum ImportAlgorithm {
    Aes(AesVariant),
    Hmac { hash: Algo },
    RsaHashed { variant: RsaVariant, hash: Algo },
    Ec { variant: EcVariant, named_curve: EcCurve },
    Hkdf,
    Pbkdf2,
}

/// The key bytes a symmetric import reads: the raw bytes, or the `k` of an `oct` JWK.
pub open spec fn symmetric_bytes_of(format: KeyFormat, data: KeyData) -> Option<Seq<u8>> {
    match (format, data) {
        (KeyFormat::Raw, KeyData::Bytes(b)) => Some(b@),
        (KeyFormat::Jwk, KeyData::Jwk(j)) => super::jwk::oct_jwk_bytes(j),
        _ => None,
    }
}

/// An AES key is 16, 24 or 32 bytes long.
pub open spec fn aes_key_bytes_ok(len: nat) -> bool {
    len == 16 || len == 24 || len == 32
}

/// The exception name of a refused symmetric import whose format and data give no key bytes:
/// `NotSupportedError` for `"pkcs8"`/`"spki"`, `DataError` for a JWK that is not a valid `oct`
/// key, `TypeError` for data of the wrong shape for the format.
pub open spec fn symmetric_error_name(format: KeyFormat, data: KeyData) -> ErrorName {
    match (format, data) {
        (KeyFormat::Pkcs8, _) => ErrorName::NotSupportedError,
        (KeyFormat::Spki, _) => ErrorName::NotSupportedError,
        (KeyFormat::Jwk, KeyData::Jwk(_)) => ErrorName::DataError,
        _ => ErrorName::TypeError,
    }
}

/// The exception name of a refused RSA import: `NotSupportedError` for `"raw"`, `DataError`
/// for key data of the right shape that does not hold a valid key, `TypeError` for data of the
/// wrong shape.
pub open spec fn rsa_import_error_name(format: KeyFormat, data: KeyData) -> ErrorName {
    match (format, data) {
        (KeyFormat::Raw, _) => ErrorName::NotSupportedError,
        (KeyFormat::Spki, KeyData::Bytes(_)) => ErrorName::DataError,
        (KeyFormat::Pkcs8, KeyData::Bytes(_)) => ErrorName::DataError,
        (KeyFormat::Jwk, KeyData::Jwk(_)) => ErrorName::DataError,
        _ => ErrorName::TypeError,
    }
}

/// The exception name of a refused EC import: `DataError` for key data of the right shape
/// that does not hold a valid key on the requested curve (including a JWK naming another or an
/// unknown curve), `TypeError` for data of the wrong shape.
pub open spec fn ec_import_error_name(format: KeyFormat, data: KeyData) -> ErrorName {
    match (format, data) {
        (KeyFormat::Jwk, KeyData::Jwk(_)) => ErrorName::DataError,
        (KeyFormat::Jwk, KeyData::Bytes(_)) => ErrorName::TypeError,
        (_, KeyData::Bytes(_)) => ErrorName::DataError,
        _ => ErrorName::TypeError,
    }
}

/// The exception name of a refused HKDF/PBKDF2 import: `NotSupportedError` for a format other
/// than `"raw"`, then `SyntaxError` for an extractable key, then `TypeError` for a JWK.
pub open spec fn derive_import_error_name(format: KeyFormat, extractable: bool) -> ErrorName {
    if format !is Raw {
        ErrorName::NotSupportedError
    } else if extractable {
        ErrorName::SyntaxError
    } else {
        ErrorName::TypeError
    }
}

/// The exception name `importKey` raises when it refuses, for each algorithm (an AES key of a
/// wrong size is a `DataError`).
pub open spec fn import_error_name(format: KeyFormat, data: KeyData, algorithm: ImportAlgorithm, extractable: bool) -> ErrorName {
    match algorithm {
        ImportAlgorithm::Aes(_) => match symmetric_bytes_of(format, data) {
            Some(_) => ErrorName::DataError,
            None => symmetric_error_name(format, data),
        },
        ImportAlgorithm::Hmac { .. } => symmetric_error_name(format, data),
        ImportAlgorithm::RsaHashed { .. } => rsa_import_error_name(format, data),
        ImportAlgorithm::Ec { .. } => ec_import_error_name(format, data),
        ImportAlgorithm::Hkdf | ImportAlgorithm::Pbkdf2 => derive_import_error_name(format, extractable),
    }
}

/// `(len * 8) as u32`: the HMAC length an import of `len` bytes reports.
pub open spec fn hmac_import_length(len: nat) -> u32 {
    ((len * 8) % 0x1_0000_0000) as u32
}

fn symmetric_bytes_from_format(format: KeyFormat, key_data: KeyData) -> (r: Result<Vec<u8>, CryptoError>)
    ensures
        r matches Ok(b) ==> symmetric_bytes_of(format, key_data) == Some(b@),
        r is Err <==> symmetric_bytes_of(format, key_data) is None,
        (format is Pkcs8 || format is Spki) ==> r == Err::<Vec<u8>, CryptoError>(CryptoError::UnsupportedFormat(format)),
        r matches Err(e) ==> !(e is InvalidAesKeyData) && error_name_of(e) == symmetric_error_name(format, key_data),
{
    match format {
        KeyFormat::Raw => match key_data {
            KeyData::Bytes(b) => Ok(b),
            KeyData::Jwk(_) => Err(CryptoError::KeyDataType),
        },
        KeyFormat::Jwk => match key_data {
            KeyData::Jwk(j) => match super::jwk::oct_from_jwk(&j) {
                Ok(b) => Ok(b),
                Err(e) => Err(CryptoError::Jwk(e)),
            },
            KeyData::Bytes(_) => Err(CryptoError::KeyDataType),
        },
        _ => Err(CryptoError::UnsupportedFormat(format)),
    }
}

fn hmac_length_of(len: usize) -> (l: u32)
    ensures
        l == hmac_import_length(len as nat),
{
    let low: usize = len % 0x2000_0000;
    let l: u32 = (low * 8) as u32;
    assert(((len as nat) * 8) % 0x1_0000_0000 == (low as nat) * 8) by (nonlinear_arith)
        requires
            low == len % 0x2000_0000,
    ;
    l
}

/// The decoded value of a JWK member known to decode.
pub open spec fn decoded(m: Option<String>) -> Seq<u8> {
    super::jwk::member_bytes(m->0@)->0
}

/// The RSA key an import reads: an SPKI public key, a PKCS#8 private key, or a JWK's
/// components rebuilt by `rsa`.
pub open spec fn rsa_import_of(format: KeyFormat, data: KeyData, pair: RsaKeyPair) -> bool {
    match (format, data, pair) {
        (KeyFormat::Spki, KeyData::Bytes(b), RsaKeyPair::Public(p)) => super::rsa::rsa_spki_public(b@) == Some(p@),
        (KeyFormat::Pkcs8, KeyData::Bytes(b), RsaKeyPair::Private(k)) => super::rsa::rsa_pkcs8_private(b@) == Some(k@),
        (KeyFormat::Jwk, KeyData::Jwk(j), RsaKeyPair::Private(k)) => super::jwk::rsa_jwk_valid(j) && j.d is Some
            && super::rsa::rsa_checked_private(decoded(j.n), decoded(j.e), decoded(j.d), decoded(j.p), decoded(j.q))
            == Some(k@),
        (KeyFormat::Jwk, KeyData::Jwk(j), RsaKeyPair::Public(p)) => super::jwk::rsa_jwk_valid(j) && j.d is None
            && super::rsa::rsa_checked_public(decoded(j.n), decoded(j.e)) == Some(p@),
        _ => false,
    }
}

/// An RSA import succeeds: the data has the format's shape and `rsa` accepts the key.
pub open spec fn rsa_import_ok(format: KeyFormat, data: KeyData) -> bool {
    match (format, data) {
        (KeyFormat::Spki, KeyData::Bytes(b)) => super::rsa::rsa_spki_public(b@) is Some,
        (KeyFormat::Pkcs8, KeyData::Bytes(b)) => super::rsa::rsa_pkcs8_private(b@) is Some,
        (KeyFormat::Jwk, KeyData::Jwk(j)) => super::jwk::rsa_jwk_valid(j) && (if j.d is Some {
            super::rsa::rsa_checked_private(decoded(j.n), decoded(j.e), decoded(j.d), decoded(j.p), decoded(j.q)) is Some
        } else {
            super::rsa::rsa_checked_public(decoded(j.n), decoded(j.e)) is Some
        }),
        _ => false,
    }
}

/// The key type of an RSA half.
pub open spec fn rsa_type_of(pair: RsaKeyPair) -> KeyType {
    match pair {
        RsaKeyPair::Private(_) => KeyType::Private,
        RsaKeyPair::Public(_) => KeyType::Public,
    }
}

fn rsa_material(format: KeyFormat, key_data: KeyData) -> (r: Result<RsaKeyPair, CryptoError>)
    ensures
        r is Ok <==> rsa_import_ok(format, key_data),
        r matches Ok(pair) ==> rsa_import_of(format, key_data, pair),
        format is Raw ==> r == Err::<RsaKeyPair, CryptoError>(CryptoError::UnsupportedFormat(format)),
        r matches Err(e) ==> error_name_of(e) == rsa_import_error_name(format, key_data),
{
    match format {
        KeyFormat::Spki => match key_data {
            KeyData::Bytes(b) => match super::rsa::from_spki_der(&b) {
                Ok(k) => Ok(RsaKeyPair::Public(k)),
                Err(e) => Err(CryptoError::Rsa(e)),
            },
            KeyData::Jwk(_) => Err(CryptoError::KeyDataType),
        },
        KeyFormat::Pkcs8 => match key_data {
            KeyData::Bytes(b) => match super::rsa::from_pkcs8_der(&b) {
                Ok(k) => Ok(RsaKeyPair::Private(k)),
                Err(e) => Err(CryptoError::Rsa(e)),
            },
            KeyData::Jwk(_) => Err(CryptoError::KeyDataType),
        },
        KeyFormat::Jwk => match key_data {
            KeyData::Jwk(j) => {
                let fields = match super::jwk::rsa_from_jwk(&j) {
                    Ok(f) => f,
                    Err(e) => return Err(CryptoError::Jwk(e)),
                };
                match fields.private {
                    Some(pf) => match super::rsa::private_key_from_components(&fields.n, &fields.e, &pf.d, &pf.p, &pf.q) {
                        Ok(k) => Ok(RsaKeyPair::Private(k)),
                        Err(e) => Err(CryptoError::Rsa(e)),
                    },
                    None => match super::rsa::public_key_from_components(&fields.n, &fields.e) {
                        Ok(k) => Ok(RsaKeyPair::Public(k)),
                        Err(e) => Err(CryptoError::Rsa(e)),
                    },
                }
            },
            KeyData::Bytes(_) => Err(CryptoError::KeyDataType),
        },
        KeyFormat::Raw => Err(CryptoError::UnsupportedFormat(format)),
    }
}

/// The EC key an import reads: a raw or SPKI public key, a PKCS#8 private key, or a JWK on
/// the requested curve.
pub open spec fn ec_import_of(format: KeyFormat, data: KeyData, curve: EcCurve, k: EcKeyPair) -> bool {
    &&& k.curve_of() == curve
    &&& match (format, data) {
        (KeyFormat::Raw, KeyData::Bytes(b)) => k is Public && super::ec::ec_sec1_public(curve, b@) == Some(k.point_of()),
        (KeyFormat::Spki, KeyData::Bytes(b)) => k is Public && super::ec::ec_spki_public(curve, b@) == Some(k.point_of()),
        (KeyFormat::Pkcs8, KeyData::Bytes(b)) => (k matches EcKeyPair::Private { d, point, .. } && super::ec::ec_pkcs8_private(curve, b@) == Some((d@, point@))),
        (KeyFormat::Jwk, KeyData::Jwk(j)) => super::jwk::ec_jwk_valid(j) && j.crv->0@ == curve.spec_name() && (if j.d is Some {
            k matches EcKeyPair::Private { d, point, .. } && super::ec::ec_scalar_private(curve, decoded(j.d)) == Some((d@, point@))
        } else {
            k is Public && super::ec::ec_sec1_public(curve, super::ec::sec1_join(decoded(j.x), decoded(j.y))) == Some(k.point_of())
        }),
        _ => false,
    }
}

/// An EC import succeeds: the data has the format's shape, names the requested curve, and the
/// curve crate accepts the key.
pub open spec fn ec_import_ok(format: KeyFormat, data: KeyData, curve: EcCurve) -> bool {
    match (format, data) {
        (KeyFormat::Raw, KeyData::Bytes(b)) => super::ec::ec_sec1_public(curve, b@) is Some,
        (KeyFormat::Spki, KeyData::Bytes(b)) => super::ec::ec_spki_public(curve, b@) is Some,
        (KeyFormat::Pkcs8, KeyData::Bytes(b)) => super::ec::ec_pkcs8_private(curve, b@) is Some,
        (KeyFormat::Jwk, KeyData::Jwk(j)) => super::jwk::ec_jwk_valid(j) && j.crv->0@ == curve.spec_name() && (if j.d is Some {
            super::ec::ec_scalar_private(curve, decoded(j.d)) is Some
        } else {
            super::ec::ec_sec1_public(curve, super::ec::sec1_join(decoded(j.x), decoded(j.y))) is Some
        }),
        _ => false,
    }
}

/// The key type of an EC half.
pub open spec fn ec_type_of(k: EcKeyPair) -> KeyType {
    match k {
        EcKeyPair::Private { .. } => KeyType::Private,
        EcKeyPair::Public { .. } => KeyType::Public,
    }
}

fn ec_material(format: KeyFormat, key_data: KeyData, named_curve: EcCurve) -> (r: Result<EcKeyPair, CryptoError>)
    ensures
        r is Ok <==> ec_import_ok(format, key_data, named_curve),
        r matches Ok(k) ==> ec_import_of(format, key_data, named_curve, k),
        r matches Err(e) ==> error_name_of(e) == ec_import_error_name(format, key_data),
{
    match format {
        KeyFormat::Raw => match key_data {
            KeyData::Bytes(b) => match super::ec::public_key_from_raw(named_curve, &b) {
                Ok(k) => Ok(k),
                Err(e) => Err(CryptoError::Ec(e)),
            },
            KeyData::Jwk(_) => Err(CryptoError::KeyDataType),
        },
        KeyFormat::Spki => match key_data {
            KeyData::Bytes(b) => match super::ec::from_spki_der(named_curve, &b) {
                Ok(k) => Ok(k),
                Err(e) => Err(CryptoError::Ec(e)),
            },
            KeyData::Jwk(_) => Err(CryptoError::KeyDataType),
        },
        KeyFormat::Pkcs8 => match key_data {
            KeyData::Bytes(b) => match super::ec::from_pkcs8_der(named_curve, &b) {
                Ok(k) => Ok(k),
                Err(e) => Err(CryptoError::Ec(e)),
            },
            KeyData::Jwk(_) => Err(CryptoError::KeyDataType),
        },
        KeyFormat::Jwk => match key_data {
            KeyData::Jwk(j) => {
                let fields = match super::jwk::ec_from_jwk(&j) {
                    Ok(f) => f,
                    Err(e) => return Err(CryptoError::Jwk(e)),
                };
                let jwk_curve = match EcCurve::from_name(fields.crv.as_str()) {
                    Some(c) => c,
                    None => return Err(CryptoError::UnknownCurve(fields.crv)),
                };
                if jwk_curve != named_curve {
                    proof {
                        reveal_strlit("P-256");
                        reveal_strlit("P-384");
                        reveal_strlit("P-521");
                        assert(jwk_curve.spec_name()[3] != named_curve.spec_name()[3]
                            || jwk_curve.spec_name()[4] != named_curve.spec_name()[4]);
                    }
                    return Err(CryptoError::CurveMismatch);
                }
                match fields.d {
                    Some(d) => match super::ec::private_key_from_components(named_curve, &d) {
                        Ok(k) => Ok(k),
                        Err(e) => Err(CryptoError::Ec(e)),
                    },
                    None => match super::ec::public_key_from_components(named_curve, &fields.x, &fields.y) {
                        Ok(k) => Ok(k),
                        Err(e) => Err(CryptoError::Ec(e)),
                    },
                }
            },
            KeyData::Bytes(_) => Err(CryptoError::KeyDataType),
        },
    }
}


/// The algorithm an RSA import reports: the requested variant and hash, and the key's own
/// modulus length and exponent.
pub open spec fn rsa_import_algorithm(variant: RsaVariant, hash: Algo, pair: RsaKeyPair) -> KeyAlgorithm {
    KeyAlgorithm::RsaHashed {
        variant,
        modulus_length: super::rsa::be_bit_len(pair.public_view().n) as u32,
        public_exponent: choose|e: Vec<u8>| e@ == pair.public_view().e,
        hash,
    }
}

/// The key `importKey` produced, for each algorithm.
pub open spec fn imported(
    k: CryptoKey,
    format: KeyFormat,
    data: KeyData,
    algorithm: ImportAlgorithm,
    extractable: bool,
    usages: Seq<KeyUsage>,
) -> bool {
    &&& k.spec_usages() == usages
    &&& match algorithm {
        ImportAlgorithm::Aes(variant) => {
            let b = symmetric_bytes_of(format, data)->0;
            &&& key_is(k, KeyType::Secret, extractable, usages, KeyAlgorithm::Aes { name: variant, length: (b.len() * 8) as u16 })
            &&& k.spec_material() matches KeyMaterial::Aes(m) && m@ == b
        },
        ImportAlgorithm::Hmac { hash } => {
            let b = symmetric_bytes_of(format, data)->0;
            &&& key_is(k, KeyType::Secret, extractable, usages, KeyAlgorithm::Hmac { hash, length: hmac_import_length(b.len()) })
            &&& k.spec_material() matches KeyMaterial::Hmac(m) && m@ == b
        },
        ImportAlgorithm::RsaHashed { variant, hash } => {
            &&& k.spec_material() matches KeyMaterial::Rsa(pair) && rsa_import_of(format, data, pair)
                && key_is(k, rsa_type_of(pair), extractable, usages, rsa_import_algorithm(variant, hash, pair))
        },
        ImportAlgorithm::Ec { variant, named_curve } => {
            &&& k.spec_material() matches KeyMaterial::Ec(ek) && ec_import_of(format, data, named_curve, ek)
                && key_is(k, ec_type_of(ek), extractable, usages, KeyAlgorithm::Ec { variant, named_curve })
        },
        ImportAlgorithm::Hkdf => {
            &&& key_is(k, KeyType::Secret, false, usages, KeyAlgorithm::DeriveOnly(DeriveKind::Hkdf))
            &&& (data matches KeyData::Bytes(b) && k.spec_material() matches KeyMaterial::Derive(m) && m@ == b@)
        },
        ImportAlgorithm::Pbkdf2 => {
            &&& key_is(k, KeyType::Secret, false, usages, KeyAlgorithm::DeriveOnly(DeriveKind::Pbkdf2))
            &&& (data matches KeyData::Bytes(b) && k.spec_material() matches KeyMaterial::Derive(m) && m@ == b@)
        },
    }
}

/// When `importKey` succeeds, for each algorithm.
pub open spec fn import_succeeds(format: KeyFormat, data: KeyData, algorithm: ImportAlgorithm, extractable: bool) -> bool {
    match algorithm {
        ImportAlgorithm::Aes(_) => symmetric_bytes_of(format, data) matches Some(b) && aes_key_bytes_ok(b.len()),
        ImportAlgorithm::Hmac { .. } => symmetric_bytes_of(format, data) is Some,
        ImportAlgorithm::RsaHashed { .. } => rsa_import_ok(format, data),
        ImportAlgorithm::Ec { named_curve, .. } => ec_import_ok(format, data, named_curve),
        ImportAlgorithm::Hkdf | ImportAlgorithm::Pbkdf2 => format is Raw && !extractable && data is Bytes,
    }
}

/// An RSA key read from SPKI, PKCS#8 or a JWK, with the algorithm that the key's own modulus
/// and exponent give.
fn import_rsa_key(
    format: KeyFormat,
    key_data: KeyData,
    variant: RsaVariant,
    hash: Algo,
    extractable: bool,
    usages: Vec<KeyUsage>,
) -> (r: Result<CryptoKey, CryptoError>)
    ensures
        r is Ok <==> rsa_import_ok(format, key_data),
        r matches Err(e) ==> error_name_of(e) == rsa_import_error_name(format, key_data),
        r matches Ok(k) ==> k.spec_usages() == usages@ && (k.spec_material() matches KeyMaterial::Rsa(pair)
            && rsa_import_of(format, key_data, pair) && key_is(
            k,
            rsa_type_of(pair),
            extractable,
            usages@,
            rsa_import_algorithm(variant, hash, pair),
        )),
{
    let pair = rsa_material(format, key_data)?;
    let (modulus_length, public_exponent) = super::rsa::key_algorithm_params(&pair);
    let ty = match &pair {
        RsaKeyPair::Private(_) => KeyType::Private,
        RsaKeyPair::Public(_) => KeyType::Public,
    };
    let alg = KeyAlgorithm::RsaHashed { variant, modulus_length, public_exponent, hash };
    Ok(CryptoKey::create(ty, extractable, usages, alg, KeyMaterial::Rsa(pair)))
}

/// An EC key read from a raw point, SPKI, PKCS#8 or a JWK on the requested curve.
fn import_ec_key(
    format: KeyFormat,
    key_data: KeyData,
    variant: EcVariant,
    named_curve: EcCurve,
    extractable: bool,
    usages: Vec<KeyUsage>,
) -> (r: Result<CryptoKey, CryptoError>)
    ensures
        r is Ok <==> ec_import_ok(format, key_data, named_curve),
        r matches Err(e) ==> error_name_of(e) == ec_import_error_name(format, key_data),
        r matches Ok(k) ==> k.spec_usages() == usages@ && (k.spec_material() matches KeyMaterial::Ec(ek)
            && ec_import_of(format, key_data, named_curve, ek) && key_is(
            k,
            ec_type_of(ek),
            extractable,
            usages@,
            KeyAlgorithm::Ec { variant, named_curve },
        )),
{
    let k = ec_material(format, key_data, named_curve)?;
    let ty = if k.is_private() {
        KeyType::Private
    } else {
        KeyType::Public
    };
    Ok(CryptoKey::create(ty, extractable, usages, KeyAlgorithm::Ec { variant, named_curve }, KeyMaterial::Ec(k)))
}

fn import_derive_only_key(
    format: KeyFormat,
    key_data: KeyData,
    kind: DeriveKind,
    extractable: bool,
    usages: Vec<KeyUsage>,
) -> (r: Result<CryptoKey, CryptoError>)
    ensures
        r is Ok <==> format is Raw && !extractable && key_data is Bytes,
        r matches Err(e) ==> error_name_of(e) == derive_import_error_name(format, extractable),
        format !is Raw ==> r == Err::<CryptoKey, CryptoError>(CryptoError::UnsupportedFormat(format)),
        format is Raw && extractable ==> r == Err::<CryptoKey, CryptoError>(CryptoError::DeriveKeyExtractable(kind)),
        r matches Ok(k) ==> key_is(k, KeyType::Secret, false, usages@, KeyAlgorithm::DeriveOnly(kind))
            && (key_data matches KeyData::Bytes(b) && k.spec_material() matches KeyMaterial::Derive(m) && m@ == b@),
{
    if format != KeyFormat::Raw {
        return Err(CryptoError::UnsupportedFormat(format));
    }
    if extractable {
        return Err(CryptoError::DeriveKeyExtractable(kind));
    }
    match key_data {
        KeyData::Bytes(bytes) => Ok(
            CryptoKey::create(KeyType::Secret, extractable, usages, KeyAlgorithm::DeriveOnly(kind), KeyMaterial::Derive(bytes)),
        ),
        KeyData::Jwk(_) => Err(CryptoError::KeyDataType),
    }
}

/// `importKey()`: reads key material in `format` for `algorithm`. Symmetric keys take raw
/// bytes or an `oct` JWK (AES keys must be 128/192/256 bits); RSA keys take SPKI, PKCS#8 or an
/// RSA JWK; EC keys take raw points, SPKI, PKCS#8 or an EC JWK on the requested curve;
/// HKDF/PBKDF2 base keys take raw bytes and must not be extractable. Usages are kept as
/// given.
pub fn import_key(
    format: KeyFormat,
    key_data: KeyData,
    algorithm: ImportAlgorithm,
    extractable: bool,
    usages: Vec<KeyUsage>,
) -> (r: Result<CryptoKey, CryptoError>)
    ensures
        r is Ok <==> import_succeeds(format, key_data, algorithm, extractable),
        r matches Ok(k) ==> imported(k, format, key_data, algorithm, extractable, usages@),
        r matches Err(e) ==> error_name_of(e) == import_error_name(format, key_data, algorithm, extractable),
        algorithm is Aes ==> (r matches Err(e) ==> (e matches CryptoError::InvalidAesKeyData(l) ==> symmetric_bytes_of(
            format,
            key_data,
        ) matches Some(b) && l == b.len())),
{
    match algorithm {
        ImportAlgorithm::Aes(variant) => {
            let raw_bytes = symmetric_bytes_from_format(format, key_data)?;
            let n = raw_bytes.len();
            if !(n == 16 || n == 24 || n == 32) {
                return Err(CryptoError::InvalidAesKeyData(n));
            }
            let length: u16 = (n * 8) as u16;
            let alg = KeyAlgorithm::Aes { name: variant, length };
            Ok(CryptoKey::create(KeyType::Secret, extractable, usages, alg, KeyMaterial::Aes(raw_bytes)))
        },
        ImportAlgorithm::Hmac { hash } => {
            let raw_bytes = symmetric_bytes_from_format(format, key_data)?;
            let length = hmac_length_of(raw_bytes.len());
            let alg = KeyAlgorithm::Hmac { hash, length };
            Ok(CryptoKey::create(KeyType::Secret, extractable, usages, alg, KeyMaterial::Hmac(raw_bytes)))
        },
        ImportAlgorithm::RsaHashed { variant, hash } => import_rsa_key(
            format,
            key_data,
            variant,
            hash,
            extractable,
            usages,
        ),
        ImportAlgorithm::Ec { variant, named_curve } => import_ec_key(
            format,
            key_data,
            variant,
            named_curve,
            extractable,
            usages,
        ),
        ImportAlgorithm::Hkdf => import_derive_only_key(format, key_data, DeriveKind::Hkdf, extractable, usages),
        ImportAlgorithm::Pbkdf2 => import_derive_only_key(format, key_data, DeriveKind::Pbkdf2, extractable, usages),
    }
}


// ---------------------------------------------------------------------------------------------
// exportKey
// ---------------------------------------------------------------------------------------------

/// What `exportKey()` produces: bytes for `"raw"`/`"pkcs8"`/`"spki"`, a JWK for `"jwk"`.
pub enum ExportedKey {
    Bytes(Vec<u8>),
    Jwk(Jwk),
}

/// `out` is exactly these bytes.
pub open spec fn exported_bytes(out: ExportedKey, b: Seq<u8>) -> bool {
    out matches ExportedKey::Bytes(v) && v@ == b
}

/// What `exportKey` produces for a symmetric key.
pub open spec fn symmetric_export(
    format: KeyFormat,
    material: Seq<u8>,
    alg: KeyAlgorithm,
    r: Result<ExportedKey, CryptoError>,
) -> bool {
    match format {
        KeyFormat::Raw => r matches Ok(out) && exported_bytes(out, material),
        KeyFormat::Jwk => r matches Ok(ExportedKey::Jwk(j)) && super::jwk::oct_jwk_bytes(j) == Some(material)
            && super::jwk::kty_is(j, super::jwk::JwkKty::Oct) && (j.k matches Some(k) && k@ == super::jwk::b64url_text(
            material,
        ) && super::jwk::unpadded(k@)) && super::jwk::member(j.alg) == alg.spec_jwk_alg_tag() && j.ext == Some(true),
        _ => r == Err::<ExportedKey, CryptoError>(CryptoError::UnsupportedFormat(format)),
    }
}

/// What `exportKey` produces for an RSA key.
pub open spec fn rsa_export(format: KeyFormat, pair: RsaKeyPair, alg: KeyAlgorithm, r: Result<ExportedKey, CryptoError>) -> bool {
    match (format, pair) {
        (KeyFormat::Spki, RsaKeyPair::Public(p)) => match super::rsa::rsa_spki_encoding(p@) {
            Some(der) => r matches Ok(out) && exported_bytes(out, der),
            None => r == Err::<ExportedKey, CryptoError>(CryptoError::Rsa(RsaError::InvalidKey)),
        },
        (KeyFormat::Spki, RsaKeyPair::Private(_)) => r == Err::<ExportedKey, CryptoError>(
            CryptoError::ExportNeedsPublic(KeyFormat::Spki),
        ),
        (KeyFormat::Pkcs8, RsaKeyPair::Private(k)) => match super::rsa::rsa_pkcs8_encoding(k@) {
            Some(der) => r matches Ok(out) && exported_bytes(out, der),
            None => r == Err::<ExportedKey, CryptoError>(CryptoError::Rsa(RsaError::InvalidKey)),
        },
        (KeyFormat::Pkcs8, RsaKeyPair::Public(_)) => r == Err::<ExportedKey, CryptoError>(
            CryptoError::ExportNeedsPrivate(KeyFormat::Pkcs8),
        ),
        (KeyFormat::Jwk, RsaKeyPair::Public(p)) => r matches Ok(ExportedKey::Jwk(j)) && super::jwk::kty_is(
            j,
            super::jwk::JwkKty::Rsa,
        ) && super::jwk::member_decodes_to(j.n, p@.n) && super::jwk::member_decodes_to(j.e, p@.e) && j.d is None
            && super::jwk::member(j.alg) == alg.spec_jwk_alg_tag() && j.ext == Some(true),
        (KeyFormat::Jwk, RsaKeyPair::Private(k)) => if k@.primes.len() == 2 {
            r matches Ok(ExportedKey::Jwk(j)) && super::jwk::kty_is(j, super::jwk::JwkKty::Rsa)
                && super::jwk::member_decodes_to(j.n, k@.n) && super::jwk::member_decodes_to(j.e, k@.e)
                && super::jwk::member_decodes_to(j.d, k@.d) && super::jwk::member_decodes_to(j.p, k@.primes[0])
                && super::jwk::member_decodes_to(j.q, k@.primes[1]) && super::jwk::member(j.alg)
                == alg.spec_jwk_alg_tag() && j.ext == Some(true)
        } else {
            r == Err::<ExportedKey, CryptoError>(CryptoError::Rsa(RsaError::InvalidKey))
        },
        (KeyFormat::Raw, _) => r == Err::<ExportedKey, CryptoError>(CryptoError::UnsupportedFormat(KeyFormat::Raw)),
    }
}

/// What `exportKey` produces for an EC key.
pub open spec fn ec_export(format: KeyFormat, k: EcKeyPair, r: Result<ExportedKey, CryptoError>) -> bool {
    match (format, k) {
        (KeyFormat::Raw, EcKeyPair::Public { point, .. }) => r matches Ok(out) && exported_bytes(out, point@),
        (KeyFormat::Raw, EcKeyPair::Private { .. }) => r == Err::<ExportedKey, CryptoError>(
            CryptoError::ExportNeedsPublic(KeyFormat::Raw),
        ),
        (KeyFormat::Spki, EcKeyPair::Public { curve, point }) => match super::ec::ec_spki_encoding(curve, point@) {
            Some(der) => r matches Ok(out) && exported_bytes(out, der),
            None => r == Err::<ExportedKey, CryptoError>(CryptoError::ExportNeedsPublic(KeyFormat::Spki)),
        },
        (KeyFormat::Spki, EcKeyPair::Private { .. }) => r == Err::<ExportedKey, CryptoError>(
            CryptoError::ExportNeedsPublic(KeyFormat::Spki),
        ),
        (KeyFormat::Pkcs8, EcKeyPair::Private { curve, d, .. }) => match super::ec::ec_pkcs8_encoding(curve, d@) {
            Some(der) => r matches Ok(out) && exported_bytes(out, der),
            None => r == Err::<ExportedKey, CryptoError>(CryptoError::ExportNeedsPrivate(KeyFormat::Pkcs8)),
        },
        (KeyFormat::Pkcs8, EcKeyPair::Public { .. }) => r == Err::<ExportedKey, CryptoError>(
            CryptoError::ExportNeedsPrivate(KeyFormat::Pkcs8),
        ),
        (KeyFormat::Jwk, _) => r matches Ok(ExportedKey::Jwk(j)) && super::jwk::kty_is(j, super::jwk::JwkKty::Ec)
            && super::jwk::member(j.crv) == Some(k.curve_of().spec_name()) && super::jwk::member_decodes_to(
            j.x,
            super::ec::sec1_coordinates(k.point_of()).0,
        ) && super::jwk::member_decodes_to(j.y, super::ec::sec1_coordinates(k.point_of()).1) && (k is Public
            <==> j.d is None) && j.ext == Some(true),
    }
}

/// An RSA key in `format`: SPKI for a public key, PKCS#8 for a private one, or a JWK of
/// either.
fn export_rsa_key(format: KeyFormat, pair: &RsaKeyPair, key: &CryptoKey) -> (r: Result<ExportedKey, CryptoError>)
    ensures
        rsa_export(format, *pair, key.spec_algorithm(), r),
{
    match format {
        KeyFormat::Spki => match pair {
            RsaKeyPair::Public(p) => match super::rsa::to_spki_der(p) {
                Ok(der) => Ok(ExportedKey::Bytes(der)),
                Err(e) => Err(CryptoError::Rsa(e)),
            },
            RsaKeyPair::Private(_) => Err(CryptoError::ExportNeedsPublic(KeyFormat::Spki)),
        },
        KeyFormat::Pkcs8 => match pair {
            RsaKeyPair::Private(k) => match super::rsa::to_pkcs8_der(k) {
                Ok(der) => Ok(ExportedKey::Bytes(der)),
                Err(e) => Err(CryptoError::Rsa(e)),
            },
            RsaKeyPair::Public(_) => Err(CryptoError::ExportNeedsPrivate(KeyFormat::Pkcs8)),
        },
        KeyFormat::Jwk => {
            let components = match pair {
                RsaKeyPair::Public(p) => super::rsa::public_components(p),
                RsaKeyPair::Private(k) => match super::rsa::private_components(k) {
                    Ok(c) => c,
                    Err(e) => return Err(CryptoError::Rsa(e)),
                },
            };
            let alg_tag = key.algorithm().jwk_alg_tag();
            let tag: Option<&str> = match &alg_tag {
                Some(t) => Some(t.as_str()),
                None => None,
            };
            Ok(ExportedKey::Jwk(super::jwk::rsa_to_jwk(&components, tag, true)))
        },
        KeyFormat::Raw => Err(CryptoError::UnsupportedFormat(format)),
    }
}

/// An EC key in `format`: a raw point or SPKI for a public key, PKCS#8 for a private one, or a
/// JWK of either.
fn export_ec_key(format: KeyFormat, k: &EcKeyPair) -> (r: Result<ExportedKey, CryptoError>)
    ensures
        ec_export(format, *k, r),
{
    match format {
        KeyFormat::Raw => match super::ec::public_key_to_raw(k) {
            Ok(bytes) => Ok(ExportedKey::Bytes(bytes)),
            Err(_) => Err(CryptoError::ExportNeedsPublic(KeyFormat::Raw)),
        },
        KeyFormat::Spki => match super::ec::to_spki_der(k) {
            Ok(der) => Ok(ExportedKey::Bytes(der)),
            Err(_) => Err(CryptoError::ExportNeedsPublic(KeyFormat::Spki)),
        },
        KeyFormat::Pkcs8 => match super::ec::to_pkcs8_der(k) {
            Ok(der) => Ok(ExportedKey::Bytes(der)),
            Err(_) => Err(CryptoError::ExportNeedsPrivate(KeyFormat::Pkcs8)),
        },
        KeyFormat::Jwk => {
            let components = super::ec::components(k);
            Ok(ExportedKey::Jwk(super::jwk::ec_to_jwk(&components, true)))
        },
    }
}

/// `exportKey()`: a non-extractable key is [`CryptoError::NotExtractable`]; otherwise the key
/// in the requested format, as each key kind supports it.
pub fn export_key(format: KeyFormat, key: &CryptoKey) -> (r: Result<ExportedKey, CryptoError>)
    ensures
        !key.spec_extractable() ==> r == Err::<ExportedKey, CryptoError>(CryptoError::NotExtractable),
        key.spec_extractable() ==> match key.spec_material() {
            KeyMaterial::Aes(b) => symmetric_export(format, b@, key.spec_algorithm(), r),
            KeyMaterial::Hmac(b) => symmetric_export(format, b@, key.spec_algorithm(), r),
            KeyMaterial::Rsa(pair) => rsa_export(format, pair, key.spec_algorithm(), r),
            KeyMaterial::Ec(k) => ec_export(format, k, r),
            KeyMaterial::Derive(_) => false,
        },
{
    let material = key.material();
    if !key.extractable() {
        return Err(CryptoError::NotExtractable);
    }
    match material {
        KeyMaterial::Aes(b) | KeyMaterial::Hmac(b) => match format {
            KeyFormat::Raw => Ok(ExportedKey::Bytes(b.clone())),
            KeyFormat::Jwk => {
                let alg_tag = key.algorithm().jwk_alg_tag();
                let tag: Option<&str> = match &alg_tag {
                    Some(t) => Some(t.as_str()),
                    None => None,
                };
                Ok(ExportedKey::Jwk(super::jwk::oct_to_jwk(b.as_slice(), tag, true)))
            },
            _ => Err(CryptoError::UnsupportedFormat(format)),
        },
        KeyMaterial::Rsa(pair) => export_rsa_key(format, pair, key),
        KeyMaterial::Ec(k) => export_ec_key(format, k),
        KeyMaterial::Derive(_) => Err(CryptoError::NotExtractable),
    }
}

/// Exporting a symmetric key as `"raw"` and importing those bytes again with the same
/// algorithm gives back the same key material (and, for AES, the same length).
pub proof fn lemma_raw_export_import_round_trip(
    key_bytes: Seq<u8>,
    exported: ExportedKey,
    format_alg: ImportAlgorithm,
    reimported: CryptoKey,
    extractable: bool,
    usages: Seq<KeyUsage>,
)
    requires
        exported_bytes(exported, key_bytes),
        format_alg is Aes || format_alg is Hmac,
        exported matches ExportedKey::Bytes(v) && imported(
            reimported,
            KeyFormat::Raw,
            KeyData::Bytes(v),
            format_alg,
            extractable,
            usages,
        ),
    ensures
        reimported.spec_material().spec_bytes() == key_bytes,
{
}

/// Exporting a symmetric key as a JWK and importing that JWK again gives back the same key
/// material.
pub proof fn lemma_jwk_export_import_round_trip(
    key_bytes: Seq<u8>,
    jwk: Jwk,
    format_alg: ImportAlgorithm,
    reimported: CryptoKey,
    extractable: bool,
    usages: Seq<KeyUsage>,
)
    requires
        super::jwk::oct_jwk_bytes(jwk) == Some(key_bytes),
        format_alg is Aes || format_alg is Hmac,
        imported(reimported, KeyFormat::Jwk, KeyData::Jwk(jwk), format_alg, extractable, usages),
    ensures
        reimported.spec_material().spec_bytes() == key_bytes,
{
}

} // verus!
