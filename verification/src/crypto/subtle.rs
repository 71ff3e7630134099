//! The `crypto.subtle` operations over [`CryptoKey`]s: encrypt/decrypt, sign/verify,
//! deriveBits/deriveKey and wrapKey/unwrapKey, with the usage, key-type and algorithm checks
//! WebCrypto requires before each.
use vstd::prelude::*;

use super::aes::CipherError;
use super::algorithm::{CipherAlgorithm, DeriveBitsAlgorithm, SignAlgorithm};
use super::digest::Algo;
use super::ec::{EcCurve, EcKeyPair};
use super::key::{
    AesVariant, CryptoError, CryptoKey, DeriveKind, EcVariant, ImportAlgorithm, KeyAlgorithm, KeyData, KeyFormat,
    KeyGenAlgorithm, KeyMaterial, KeyType, KeyUsage, RsaVariant,
};
use super::rsa::RsaKeyPair;

verus! {

// ---------------------------------------------------------------------------------------------
// Preconditions of every operation
// ---------------------------------------------------------------------------------------------

/// The key's usages include `usage`, else [`CryptoError::UsageNotAllowed`].
pub fn require_usage(key: &CryptoKey, usage: KeyUsage) -> (r: Result<(), CryptoError>)
    ensures
        r is Ok <==> key.spec_usages().contains(usage),
        r is Err ==> r == Err::<(), CryptoError>(CryptoError::UsageNotAllowed(usage)),
{
    let usages = key.usages();
    let mut i: usize = 0;
    while i < usages.len()
        invariant
            usages@ == key.spec_usages(),
            i <= usages@.len(),
            forall|k: int| 0 <= k < i ==> usages@[k] != usage,
        decreases usages.len() - i,
    {
        if usages[i] == usage {
            assert(usages@[i as int] == usage);
            return Ok(());
        }
        i = i + 1;
    }
    Err(CryptoError::UsageNotAllowed(usage))
}

/// The key is an AES key of mode `expected`.
pub open spec fn is_aes_key(key: CryptoKey, expected: AesVariant) -> bool {
    key.spec_algorithm() matches KeyAlgorithm::Aes { name, .. } && name == expected
}

/// The key is an AES key of mode `expected`, else [`CryptoError::AlgorithmMismatch`].
pub fn require_aes_variant(key: &CryptoKey, expected: AesVariant) -> (r: Result<(), CryptoError>)
    ensures
        r is Ok <==> is_aes_key(*key, expected),
        r is Err ==> r == Err::<(), CryptoError>(CryptoError::AlgorithmMismatch),
{
    match key.algorithm() {
        KeyAlgorithm::Aes { name, .. } => if *name == expected {
            Ok(())
        } else {
            Err(CryptoError::AlgorithmMismatch)
        },
        _ => Err(CryptoError::AlgorithmMismatch),
    }
}

/// The key's HMAC hash, else [`CryptoError::NotHmacKey`].
pub fn require_hmac(key: &CryptoKey) -> (r: Result<Algo, CryptoError>)
    ensures
        r is Ok <==> key.spec_algorithm() is Hmac,
        r matches Ok(h) ==> key.spec_algorithm() matches KeyAlgorithm::Hmac { hash, .. } && h == hash,
        r is Err ==> r == Err::<Algo, CryptoError>(CryptoError::NotHmacKey),
{
    match key.algorithm() {
        KeyAlgorithm::Hmac { hash, .. } => Ok(*hash),
        _ => Err(CryptoError::NotHmacKey),
    }
}

/// The key is an RSA key of variant `expected` with this hash.
pub open spec fn is_rsa_key(key: CryptoKey, expected: RsaVariant) -> bool {
    key.spec_algorithm() matches KeyAlgorithm::RsaHashed { variant, .. } && variant == expected
}

/// The hash fixed on an RSA key.
pub open spec fn rsa_hash_of(key: CryptoKey) -> Algo {
    key.spec_algorithm()->RsaHashed_hash
}

/// The key's hash if it is an RSA key of variant `expected`, else
/// [`CryptoError::AlgorithmMismatch`].
pub fn require_rsa_variant(key: &CryptoKey, expected: RsaVariant) -> (r: Result<Algo, CryptoError>)
    ensures
        r is Ok <==> is_rsa_key(*key, expected),
        r matches Ok(h) ==> h == rsa_hash_of(*key),
        r is Err ==> r == Err::<Algo, CryptoError>(CryptoError::AlgorithmMismatch),
{
    match key.algorithm() {
        KeyAlgorithm::RsaHashed { variant, hash, .. } => if *variant == expected {
            Ok(*hash)
        } else {
            Err(CryptoError::AlgorithmMismatch)
        },
        _ => Err(CryptoError::AlgorithmMismatch),
    }
}

/// The key is an EC key of variant `expected`.
pub open spec fn is_ec_key(key: CryptoKey, expected: EcVariant) -> bool {
    key.spec_algorithm() matches KeyAlgorithm::Ec { variant, .. } && variant == expected
}

/// The key's curve if it is an EC key of variant `expected`, else
/// [`CryptoError::AlgorithmMismatch`].
pub fn require_ec_variant(key: &CryptoKey, expected: EcVariant) -> (r: Result<EcCurve, CryptoError>)
    ensures
        r is Ok <==> is_ec_key(*key, expected),
        r matches Ok(c) ==> key.spec_algorithm() matches KeyAlgorithm::Ec { named_curve, .. } && c == named_curve,
        r is Err ==> r == Err::<EcCurve, CryptoError>(CryptoError::AlgorithmMismatch),
{
    match key.algorithm() {
        KeyAlgorithm::Ec { variant, named_curve } => if *variant == expected {
            Ok(*named_curve)
        } else {
            Err(CryptoError::AlgorithmMismatch)
        },
        _ => Err(CryptoError::AlgorithmMismatch),
    }
}

/// The key has type `expected`, else [`CryptoError::WrongKeyType`].
pub fn require_key_type(key: &CryptoKey, expected: KeyType) -> (r: Result<(), CryptoError>)
    ensures
        r is Ok <==> key.spec_type() == expected,
        r is Err ==> r == Err::<(), CryptoError>(CryptoError::WrongKeyType(expected)),
{
    if key.key_type() == expected {
        Ok(())
    } else {
        Err(CryptoError::WrongKeyType(expected))
    }
}

/// The bytes of a key whose material is symmetric.
fn key_bytes(key: &CryptoKey) -> (b: &Vec<u8>)
    requires
        key.spec_material().is_symmetric(),
    ensures
        b@ == key.spec_material().spec_bytes(),
{
    match key.material() {
        KeyMaterial::Aes(b) => b,
        KeyMaterial::Hmac(b) => b,
        KeyMaterial::Derive(b) => b,
        KeyMaterial::Rsa(_) => {
            assert(false);
            unreached()
        },
        KeyMaterial::Ec(_) => {
            assert(false);
            unreached()
        },
    }
}

// ---------------------------------------------------------------------------------------------
// encrypt / decrypt
// ---------------------------------------------------------------------------------------------

/// A cipher result with its error lifted into [`CryptoError::Cipher`].
pub open spec fn lift(res: Result<Vec<u8>, CipherError>) -> Result<Vec<u8>, CryptoError> {
    match res {
        Ok(v) => Ok(v),
        Err(e) => Err(CryptoError::Cipher(e)),
    }
}

fn lift_exec(res: Result<Vec<u8>, CipherError>) -> (r: Result<Vec<u8>, CryptoError>)
    ensures
        r == lift(res),
{
    match res {
        Ok(v) => Ok(v),
        Err(e) => Err(CryptoError::Cipher(e)),
    }
}

/// The additional data of AES-GCM parameters (absent is empty).
pub open spec fn gcm_aad(ad: Option<Vec<u8>>) -> Seq<u8> {
    match ad {
        Some(v) => v@,
        None => Seq::empty(),
    }
}

/// The label of RSA-OAEP parameters (absent is empty).
pub open spec fn oaep_label(l: Option<Vec<u8>>) -> Seq<u8> {
    match l {
        Some(v) => v@,
        None => Seq::empty(),
    }
}

/// What encrypting `pt` with `key` under `algorithm` yields (usage not yet considered).
pub open spec fn encrypt_result(algorithm: CipherAlgorithm, key: CryptoKey, pt: Seq<u8>, r: Result<Vec<u8>, CryptoError>) -> bool {
    let kb = key.spec_material().spec_bytes();
    match algorithm {
        CipherAlgorithm::RsaOaep { label } => if key.spec_type() != KeyType::Public {
            r == Err::<Vec<u8>, CryptoError>(CryptoError::WrongKeyType(KeyType::Public))
        } else if !is_rsa_key(key, RsaVariant::Oaep) {
            r == Err::<Vec<u8>, CryptoError>(CryptoError::AlgorithmMismatch)
        } else {
            key.spec_material() matches KeyMaterial::Rsa(RsaKeyPair::Public(p)) && {
                let hash = rsa_hash_of(key);
                &&& hash == Algo::Sha1 ==> r == Err::<Vec<u8>, CryptoError>(CryptoError::Rsa(super::rsa::RsaError::UnsupportedHash))
                &&& hash != Algo::Sha1 ==> (r matches Err(e) ==> e == CryptoError::Rsa(super::rsa::RsaError::OperationFailed))
                &&& r matches Ok(ct) ==> ct@.len() == super::rsa::modulus_len(p@.n)
                &&& r is Ok ==> super::rsa::public_key_accepted(p@.n, p@.e) && pt.len() + 2
                    * super::digest::digest_len_of(hash) + 2 <= super::rsa::modulus_len(p@.n)
                &&& hash != Algo::Sha1 && super::rsa::public_key_accepted(p@.n, p@.e) && pt.len() + 2
                    * super::digest::digest_len_of(hash) + 2 <= super::rsa::modulus_len(p@.n) && 3 * oaep_label(label).len()
                    <= super::rsa::max_label_len() ==> r is Ok
                &&& r matches Ok(ct) ==> forall|sk: super::rsa::RsaPrivateView|
                    super::rsa::public_of(sk) == p@ && super::rsa::sound_private_key(sk) ==> #[trigger] super::rsa::oaep_plaintext_of(
                        sk,
                        hash,
                        oaep_label(label),
                        ct@,
                    ) == Some(pt)
            }
        },
        CipherAlgorithm::AesGcm { iv, additional_data, tag_length_bits } => if !is_aes_key(key, AesVariant::Gcm) {
            r == Err::<Vec<u8>, CryptoError>(CryptoError::AlgorithmMismatch)
        } else {
            exists|c: Result<Vec<u8>, CipherError>|
                super::aes::gcm_encrypt_result(kb, iv@, gcm_aad(additional_data), tag_length_bits, pt, c) && r == lift(c)
        },
        CipherAlgorithm::AesCbc { iv } => if !is_aes_key(key, AesVariant::Cbc) {
            r == Err::<Vec<u8>, CryptoError>(CryptoError::AlgorithmMismatch)
        } else {
            exists|c: Result<Vec<u8>, CipherError>| super::aes::cbc_encrypt_result(kb, iv@, pt, c) && r == lift(c)
        },
        CipherAlgorithm::AesCtr { counter, length_bits } => if !is_aes_key(key, AesVariant::Ctr) {
            r == Err::<Vec<u8>, CryptoError>(CryptoError::AlgorithmMismatch)
        } else if counter@.len() != 16 {
            r == Err::<Vec<u8>, CryptoError>(CryptoError::Cipher(CipherError::WrongCounterLength))
        } else {
            exists|c: Result<Vec<u8>, CipherError>| super::aes::ctr_result(kb, counter@, length_bits, pt, c) && r == lift(c)
        },
    }
}

/// What decrypting `ct` with `key` under `algorithm` yields (usage not yet considered).
pub open spec fn decrypt_result(algorithm: CipherAlgorithm, key: CryptoKey, ct: Seq<u8>, r: Result<Vec<u8>, CryptoError>) -> bool {
    let kb = key.spec_material().spec_bytes();
    match algorithm {
        CipherAlgorithm::RsaOaep { label } => if key.spec_type() != KeyType::Private {
            r == Err::<Vec<u8>, CryptoError>(CryptoError::WrongKeyType(KeyType::Private))
        } else if !is_rsa_key(key, RsaVariant::Oaep) {
            r == Err::<Vec<u8>, CryptoError>(CryptoError::AlgorithmMismatch)
        } else {
            key.spec_material() matches KeyMaterial::Rsa(RsaKeyPair::Private(k)) && {
                let hash = rsa_hash_of(key);
                let plain = super::rsa::oaep_plaintext_of(k@, hash, oaep_label(label), ct);
                &&& hash == Algo::Sha1 ==> r == Err::<Vec<u8>, CryptoError>(CryptoError::Rsa(super::rsa::RsaError::UnsupportedHash))
                &&& hash != Algo::Sha1 ==> (r matches Ok(pt) ==> plain == Some(pt@))
                &&& hash != Algo::Sha1 ==> (r is Err <==> plain is None)
                &&& hash != Algo::Sha1 ==> (r matches Err(e) ==> e == CryptoError::Rsa(super::rsa::RsaError::OperationFailed))
            }
        },
        CipherAlgorithm::AesGcm { iv, additional_data, tag_length_bits } => if !is_aes_key(key, AesVariant::Gcm) {
            r == Err::<Vec<u8>, CryptoError>(CryptoError::AlgorithmMismatch)
        } else {
            exists|c: Result<Vec<u8>, CipherError>|
                super::aes::gcm_decrypt_result(kb, iv@, gcm_aad(additional_data), tag_length_bits, ct, c) && r == lift(c)
        },
        CipherAlgorithm::AesCbc { iv } => if !is_aes_key(key, AesVariant::Cbc) {
            r == Err::<Vec<u8>, CryptoError>(CryptoError::AlgorithmMismatch)
        } else {
            exists|c: Result<Vec<u8>, CipherError>| super::aes::cbc_decrypt_result(kb, iv@, ct, c) && r == lift(c)
        },
        CipherAlgorithm::AesCtr { counter, length_bits } => if !is_aes_key(key, AesVariant::Ctr) {
            r == Err::<Vec<u8>, CryptoError>(CryptoError::AlgorithmMismatch)
        } else if counter@.len() != 16 {
            r == Err::<Vec<u8>, CryptoError>(CryptoError::Cipher(CipherError::WrongCounterLength))
        } else {
            exists|c: Result<Vec<u8>, CipherError>| super::aes::ctr_result(kb, counter@, length_bits, ct, c) && r == lift(c)
        },
    }
}

fn counter_block(v: &Vec<u8>) -> (a: [u8; 16])
    requires
        v@.len() == 16,
    ensures
        a@ == v@,
{
    let a = [v[0], v[1], v[2], v[3], v[4], v[5], v[6], v[7], v[8], v[9], v[10], v[11], v[12], v[13], v[14], v[15]];
    assert(a@ =~= v@);
    a
}

fn opt_slice(v: &Option<Vec<u8>>) -> (r: Option<&[u8]>)
    ensures
        super::aes::aad_bytes(r) == gcm_aad(*v),
        super::rsa::label_bytes(r) == oaep_label(*v),
{
    match v {
        Some(b) => Some(b.as_slice()),
        None => None,
    }
}

/// The encrypt operation itself, without the usage check (shared by `encrypt()`, which needs
/// `"encrypt"`, and `wrapKey()`, which needs `"wrapKey"`).
pub fn encrypt_bytes(algorithm: &CipherAlgorithm, key: &CryptoKey, plaintext: &[u8]) -> (r: Result<Vec<u8>, CryptoError>)
    ensures
        encrypt_result(*algorithm, *key, plaintext@, r),
{
    let material = key.material();
    match algorithm {
        CipherAlgorithm::RsaOaep { label } => {
            require_key_type(key, KeyType::Public)?;
            let hash = require_rsa_variant(key, RsaVariant::Oaep)?;
            match material {
                KeyMaterial::Rsa(RsaKeyPair::Public(p)) => match super::rsa::oaep_encrypt(p, hash, opt_slice(label), plaintext) {
                    Ok(ct) => Ok(ct),
                    Err(e) => Err(CryptoError::Rsa(e)),
                },
                _ => Err(CryptoError::WrongKeyType(KeyType::Public)),
            }
        },
        CipherAlgorithm::AesGcm { iv, additional_data, tag_length_bits } => {
            require_aes_variant(key, AesVariant::Gcm)?;
            let kb = key_bytes(key);
            let c = super::aes::gcm_encrypt(kb.as_slice(), iv.as_slice(), opt_slice(additional_data), *tag_length_bits, plaintext);
            lift_exec(c)
        },
        CipherAlgorithm::AesCbc { iv } => {
            require_aes_variant(key, AesVariant::Cbc)?;
            let kb = key_bytes(key);
            let c = super::aes::cbc_encrypt(kb.as_slice(), iv.as_slice(), plaintext);
            lift_exec(c)
        },
        CipherAlgorithm::AesCtr { counter, length_bits } => {
            require_aes_variant(key, AesVariant::Ctr)?;
            let kb = key_bytes(key);
            if counter.len() != 16 {
                return Err(CryptoError::Cipher(CipherError::WrongCounterLength));
            }
            let block = counter_block(counter);
            let c = super::aes::ctr_encrypt_decrypt(kb.as_slice(), &block, *length_bits, plaintext);
            lift_exec(c)
        },
    }
}

/// The decrypt operation itself, without the usage check (shared by `decrypt()` and
/// `unwrapKey()`).
pub fn decrypt_bytes(algorithm: &CipherAlgorithm, key: &CryptoKey, ciphertext: &[u8]) -> (r: Result<Vec<u8>, CryptoError>)
    ensures
        decrypt_result(*algorithm, *key, ciphertext@, r),
{
    let material = key.material();
    match algorithm {
        CipherAlgorithm::RsaOaep { label } => {
            require_key_type(key, KeyType::Private)?;
            let hash = require_rsa_variant(key, RsaVariant::Oaep)?;
            match material {
                KeyMaterial::Rsa(RsaKeyPair::Private(k)) => match super::rsa::oaep_decrypt(k, hash, opt_slice(label), ciphertext) {
                    Ok(pt) => Ok(pt),
                    Err(e) => Err(CryptoError::Rsa(e)),
                },
                _ => Err(CryptoError::WrongKeyType(KeyType::Private)),
            }
        },
        CipherAlgorithm::AesGcm { iv, additional_data, tag_length_bits } => {
            require_aes_variant(key, AesVariant::Gcm)?;
            let kb = key_bytes(key);
            let c = super::aes::gcm_decrypt(kb.as_slice(), iv.as_slice(), opt_slice(additional_data), *tag_length_bits, ciphertext);
            lift_exec(c)
        },
        CipherAlgorithm::AesCbc { iv } => {
            require_aes_variant(key, AesVariant::Cbc)?;
            let kb = key_bytes(key);
            let c = super::aes::cbc_decrypt(kb.as_slice(), iv.as_slice(), ciphertext);
            lift_exec(c)
        },
        CipherAlgorithm::AesCtr { counter, length_bits } => {
            require_aes_variant(key, AesVariant::Ctr)?;
            let kb = key_bytes(key);
            if counter.len() != 16 {
                return Err(CryptoError::Cipher(CipherError::WrongCounterLength));
            }
            let block = counter_block(counter);
            let c = super::aes::ctr_encrypt_decrypt(kb.as_slice(), &block, *length_bits, ciphertext);
            lift_exec(c)
        },
    }
}

/// `encrypt()`: needs the `"encrypt"` usage, then encrypts as [`encrypt_bytes`].
pub fn encrypt(algorithm: &CipherAlgorithm, key: &CryptoKey, data: &[u8]) -> (r: Result<Vec<u8>, CryptoError>)
    ensures
        !key.spec_usages().contains(KeyUsage::Encrypt) ==> r == Err::<Vec<u8>, CryptoError>(
            CryptoError::UsageNotAllowed(KeyUsage::Encrypt),
        ),
        key.spec_usages().contains(KeyUsage::Encrypt) ==> encrypt_result(*algorithm, *key, data@, r),
{
    require_usage(key, KeyUsage::Encrypt)?;
    encrypt_bytes(algorithm, key, data)
}

/// `decrypt()`: needs the `"decrypt"` usage, then decrypts as [`decrypt_bytes`].
pub fn decrypt(algorithm: &CipherAlgorithm, key: &CryptoKey, data: &[u8]) -> (r: Result<Vec<u8>, CryptoError>)
    ensures
        !key.spec_usages().contains(KeyUsage::Decrypt) ==> r == Err::<Vec<u8>, CryptoError>(
            CryptoError::UsageNotAllowed(KeyUsage::Decrypt),
        ),
        key.spec_usages().contains(KeyUsage::Decrypt) ==> decrypt_result(*algorithm, *key, data@, r),
{
    require_usage(key, KeyUsage::Decrypt)?;
    decrypt_bytes(algorithm, key, data)
}


// ---------------------------------------------------------------------------------------------
// sign / verify
// ---------------------------------------------------------------------------------------------

/// What signing `data` with `key` under `algorithm` yields (usage not yet considered). RSA
/// and ECDSA sign the digest of `data`.
pub open spec fn sign_result(algorithm: SignAlgorithm, key: CryptoKey, data: Seq<u8>, r: Result<Vec<u8>, CryptoError>) -> bool {
    match algorithm {
        SignAlgorithm::Hmac => match key.spec_algorithm() {
            KeyAlgorithm::Hmac { hash, .. } => r matches Ok(sig) && sig@ == super::hmac::hmac_tag(
                hash,
                key.spec_material().spec_bytes(),
                data,
            ),
            _ => r == Err::<Vec<u8>, CryptoError>(CryptoError::NotHmacKey),
        },
        SignAlgorithm::RsaSsaPkcs1 => if key.spec_type() != KeyType::Private {
            r == Err::<Vec<u8>, CryptoError>(CryptoError::WrongKeyType(KeyType::Private))
        } else if !is_rsa_key(key, RsaVariant::Pkcs1v15) {
            r == Err::<Vec<u8>, CryptoError>(CryptoError::AlgorithmMismatch)
        } else {
            key.spec_material() matches KeyMaterial::Rsa(RsaKeyPair::Private(k)) && {
                let hash = rsa_hash_of(key);
                let sig = super::rsa::pkcs1v15_signature_of(k@, hash, super::digest::digest_of(hash, data));
                &&& (r matches Ok(s) ==> sig == Some(s@))
                &&& (r is Err <==> sig is None)
                &&& (r matches Err(e) ==> e == CryptoError::Rsa(super::rsa::RsaError::OperationFailed))
                &&& (r matches Ok(s) ==> super::rsa::pkcs1v15_accepts(
                    super::rsa::public_of(k@),
                    hash,
                    super::digest::digest_of(hash, data),
                    s@,
                ))
            }
        },
        SignAlgorithm::RsaPss { salt_length } => if key.spec_type() != KeyType::Private {
            r == Err::<Vec<u8>, CryptoError>(CryptoError::WrongKeyType(KeyType::Private))
        } else if !is_rsa_key(key, RsaVariant::Pss) {
            r == Err::<Vec<u8>, CryptoError>(CryptoError::AlgorithmMismatch)
        } else {
            key.spec_material() matches KeyMaterial::Rsa(RsaKeyPair::Private(k)) && {
                let hash = rsa_hash_of(key);
                let fits = super::rsa::pss_fits(k@.n, super::digest::digest_len_of(hash), salt_length as nat);
                &&& (r matches Ok(s) ==> s@.len() == super::rsa::modulus_len(k@.n))
                &&& (r matches Ok(s) ==> super::rsa::rsa_pss_valid(
                    super::rsa::public_of(k@),
                    hash,
                    salt_length as nat,
                    super::digest::digest_of(hash, data),
                    s@,
                ))
                &&& (r is Ok ==> fits)
                &&& (super::rsa::sound_private_key(k@) && fits ==> r is Ok)
                &&& (r matches Err(e) ==> e == CryptoError::Rsa(super::rsa::RsaError::OperationFailed))
            }
        },
        SignAlgorithm::Ecdsa { hash } => if key.spec_type() != KeyType::Private {
            r == Err::<Vec<u8>, CryptoError>(CryptoError::WrongKeyType(KeyType::Private))
        } else if !is_ec_key(key, EcVariant::Ecdsa) {
            r == Err::<Vec<u8>, CryptoError>(CryptoError::AlgorithmMismatch)
        } else {
            key.spec_material() matches KeyMaterial::Ec(EcKeyPair::Private { curve, d, .. }) && {
                let prehash = super::ec::widened_prehash(curve, super::digest::digest_of(hash, data));
                let sig = super::ec::ecdsa_prehash_signature(curve, d@, prehash);
                &&& (r matches Ok(s) ==> super::ec::signed_by(curve, d@, prehash, s@))
                &&& (r matches Err(e) ==> e == CryptoError::Ec(super::ec::EcError::OperationFailed))
                &&& (super::ec::ec_scalar_private(curve, d@) is None ==> r is Err)
                &&& (curve != super::ec::EcCurve::P521 ==> (r matches Ok(s) ==> sig == Some(s@)))
                &&& (curve != super::ec::EcCurve::P521 ==> (r is Err <==> sig is None))
            }
        },
    }
}

/// What verifying `signature` over `data` with `key` under `algorithm` yields (usage not yet
/// considered). A rejected signature is `Ok(false)`, never an error.
pub open spec fn verify_result(
    algorithm: SignAlgorithm,
    key: CryptoKey,
    signature: Seq<u8>,
    data: Seq<u8>,
    r: Result<bool, CryptoError>,
) -> bool {
    match algorithm {
        SignAlgorithm::Hmac => match key.spec_algorithm() {
            KeyAlgorithm::Hmac { hash, .. } => r == Ok::<bool, CryptoError>(
                super::hmac::hmac_accepts(hash, key.spec_material().spec_bytes(), data, signature),
            ),
            _ => r == Err::<bool, CryptoError>(CryptoError::NotHmacKey),
        },
        SignAlgorithm::RsaSsaPkcs1 => if key.spec_type() != KeyType::Public {
            r == Err::<bool, CryptoError>(CryptoError::WrongKeyType(KeyType::Public))
        } else if !is_rsa_key(key, RsaVariant::Pkcs1v15) {
            r == Err::<bool, CryptoError>(CryptoError::AlgorithmMismatch)
        } else {
            key.spec_material() matches KeyMaterial::Rsa(RsaKeyPair::Public(p)) && {
                let hash = rsa_hash_of(key);
                r == Ok::<bool, CryptoError>(
                    super::rsa::rsa_pkcs1v15_valid(
                        p@,
                        super::rsa::digest_info_prefix_of(hash),
                        super::digest::digest_len_of(hash),
                        super::digest::digest_of(hash, data),
                        signature,
                    ),
                )
            }
        },
        SignAlgorithm::RsaPss { salt_length } => if key.spec_type() != KeyType::Public {
            r == Err::<bool, CryptoError>(CryptoError::WrongKeyType(KeyType::Public))
        } else if !is_rsa_key(key, RsaVariant::Pss) {
            r == Err::<bool, CryptoError>(CryptoError::AlgorithmMismatch)
        } else {
            key.spec_material() matches KeyMaterial::Rsa(RsaKeyPair::Public(p)) && {
                let hash = rsa_hash_of(key);
                r == Ok::<bool, CryptoError>(
                    super::rsa::rsa_pss_valid(p@, hash, salt_length as nat, super::digest::digest_of(hash, data), signature),
                )
            }
        },
        SignAlgorithm::Ecdsa { hash } => if key.spec_type() != KeyType::Public {
            r == Err::<bool, CryptoError>(CryptoError::WrongKeyType(KeyType::Public))
        } else if !is_ec_key(key, EcVariant::Ecdsa) {
            r == Err::<bool, CryptoError>(CryptoError::AlgorithmMismatch)
        } else {
            key.spec_material() matches KeyMaterial::Ec(EcKeyPair::Public { curve, point }) && r == Ok::<bool, CryptoError>(
                super::ec::ecdsa_prehash_valid(
                    curve,
                    point@,
                    super::ec::widened_prehash(curve, super::digest::digest_of(hash, data)),
                    signature,
                ),
            )
        },
    }
}

/// `sign()`: needs the `"sign"` usage, then signs as [`sign_result`] describes.
pub fn sign(algorithm: &SignAlgorithm, key: &CryptoKey, data: &[u8]) -> (r: Result<Vec<u8>, CryptoError>)
    ensures
        !key.spec_usages().contains(KeyUsage::Sign) ==> r == Err::<Vec<u8>, CryptoError>(
            CryptoError::UsageNotAllowed(KeyUsage::Sign),
        ),
        key.spec_usages().contains(KeyUsage::Sign) ==> sign_result(*algorithm, *key, data@, r),
{
    require_usage(key, KeyUsage::Sign)?;
    let material = key.material();
    match algorithm {
        SignAlgorithm::Hmac => {
            let hash = require_hmac(key)?;
            let kb = key_bytes(key);
            Ok(super::hmac::sign(hash, kb.as_slice(), data))
        },
        SignAlgorithm::RsaSsaPkcs1 => {
            require_key_type(key, KeyType::Private)?;
            let hash = require_rsa_variant(key, RsaVariant::Pkcs1v15)?;
            match material {
                KeyMaterial::Rsa(RsaKeyPair::Private(k)) => {
                    let hashed = super::digest::hash_bytes(hash, data);
                    match super::rsa::pkcs1v15_sign(k, hash, &hashed) {
                        Ok(sig) => Ok(sig),
                        Err(e) => Err(CryptoError::Rsa(e)),
                    }
                },
                _ => Err(CryptoError::WrongKeyType(KeyType::Private)),
            }
        },
        SignAlgorithm::RsaPss { salt_length } => {
            require_key_type(key, KeyType::Private)?;
            let hash = require_rsa_variant(key, RsaVariant::Pss)?;
            match material {
                KeyMaterial::Rsa(RsaKeyPair::Private(k)) => {
                    let hashed = super::digest::hash_bytes(hash, data);
                    match super::rsa::pss_sign(k, hash, *salt_length as usize, &hashed) {
                        Ok(sig) => Ok(sig),
                        Err(e) => Err(CryptoError::Rsa(e)),
                    }
                },
                _ => Err(CryptoError::WrongKeyType(KeyType::Private)),
            }
        },
        SignAlgorithm::Ecdsa { hash } => {
            require_key_type(key, KeyType::Private)?;
            require_ec_variant(key, EcVariant::Ecdsa)?;
            let hashed = super::digest::hash_bytes(*hash, data);
            match material {
                KeyMaterial::Ec(pair) => match super::ec::ecdsa_sign(pair, &hashed) {
                    Ok(sig) => Ok(sig),
                    Err(e) => Err(CryptoError::Ec(e)),
                },
                _ => Err(CryptoError::WrongKeyType(KeyType::Private)),
            }
        },
    }
}

/// `verify()`: needs the `"verify"` usage, then checks as [`verify_result`] describes.
pub fn verify(algorithm: &SignAlgorithm, key: &CryptoKey, signature: &[u8], data: &[u8]) -> (r: Result<bool, CryptoError>)
    ensures
        !key.spec_usages().contains(KeyUsage::Verify) ==> r == Err::<bool, CryptoError>(
            CryptoError::UsageNotAllowed(KeyUsage::Verify),
        ),
        key.spec_usages().contains(KeyUsage::Verify) ==> verify_result(*algorithm, *key, signature@, data@, r),
{
    require_usage(key, KeyUsage::Verify)?;
    let material = key.material();
    match algorithm {
        SignAlgorithm::Hmac => {
            let hash = require_hmac(key)?;
            let kb = key_bytes(key);
            Ok(super::hmac::verify(hash, kb.as_slice(), data, signature))
        },
        SignAlgorithm::RsaSsaPkcs1 => {
            require_key_type(key, KeyType::Public)?;
            let hash = require_rsa_variant(key, RsaVariant::Pkcs1v15)?;
            match material {
                KeyMaterial::Rsa(RsaKeyPair::Public(p)) => {
                    let hashed = super::digest::hash_bytes(hash, data);
                    Ok(super::rsa::pkcs1v15_verify(p, hash, &hashed, signature))
                },
                _ => Err(CryptoError::WrongKeyType(KeyType::Public)),
            }
        },
        SignAlgorithm::RsaPss { salt_length } => {
            require_key_type(key, KeyType::Public)?;
            let hash = require_rsa_variant(key, RsaVariant::Pss)?;
            match material {
                KeyMaterial::Rsa(RsaKeyPair::Public(p)) => {
                    let hashed = super::digest::hash_bytes(hash, data);
                    Ok(super::rsa::pss_verify(p, hash, *salt_length as usize, &hashed, signature))
                },
                _ => Err(CryptoError::WrongKeyType(KeyType::Public)),
            }
        },
        SignAlgorithm::Ecdsa { hash } => {
            require_key_type(key, KeyType::Public)?;
            require_ec_variant(key, EcVariant::Ecdsa)?;
            let hashed = super::digest::hash_bytes(*hash, data);
            match material {
                KeyMaterial::Ec(pair) => Ok(super::ec::ecdsa_verify(pair, &hashed, signature)),
                _ => Err(CryptoError::WrongKeyType(KeyType::Public)),
            }
        },
    }
}

/// An HMAC key that may both sign and verify accepts its own signatures: `verify()` of what
/// `sign()` produced over the same data is `true`.
pub proof fn lemma_hmac_sign_then_verify(key: CryptoKey, data: Seq<u8>, signed: Result<Vec<u8>, CryptoError>, verified: Result<bool, CryptoError>)
    requires
        sign_result(SignAlgorithm::Hmac, key, data, signed),
        signed matches Ok(sig) && verify_result(SignAlgorithm::Hmac, key, sig@, data, verified),
    ensures
        verified == Ok::<bool, CryptoError>(true),
{
}


// ---------------------------------------------------------------------------------------------
// deriveBits / deriveKey
// ---------------------------------------------------------------------------------------------

/// The key is an HKDF/PBKDF2 base key of `kind`.
pub open spec fn is_derive_key(key: CryptoKey, kind: DeriveKind) -> bool {
    key.spec_algorithm() == KeyAlgorithm::DeriveOnly(kind)
}

/// The bytes of a derive-only key of `expected` kind, else [`CryptoError::NotDeriveKey`].
fn require_derive_key(key: &CryptoKey, expected: DeriveKind) -> (r: Result<&Vec<u8>, CryptoError>)
    ensures
        r is Ok <==> is_derive_key(*key, expected),
        r matches Ok(b) ==> b@ == key.spec_material().spec_bytes(),
        r is Err ==> r == Err::<&Vec<u8>, CryptoError>(CryptoError::NotDeriveKey(expected)),
{
    let material = key.material();
    match key.algorithm() {
        KeyAlgorithm::DeriveOnly(kind) => if *kind == expected {
            Ok(key_bytes(key))
        } else {
            Err(CryptoError::NotDeriveKey(expected))
        },
        _ => Err(CryptoError::NotDeriveKey(expected)),
    }
}

/// The byte length HKDF/PBKDF2 derive: `length` must be given, non-zero and a multiple of 8.
pub open spec fn derive_length_of(length: Option<Option<u32>>) -> Option<nat> {
    match length {
        Some(Some(bits)) => if bits != 0 && bits % 8 == 0 {
            Some((bits / 8) as nat)
        } else {
            None
        },
        _ => None,
    }
}

/// The byte length for HKDF/PBKDF2, else [`CryptoError::DeriveLengthRequired`].
fn require_derive_length(length: Option<Option<u32>>, kind: DeriveKind) -> (r: Result<usize, CryptoError>)
    ensures
        r matches Ok(n) ==> derive_length_of(length) == Some(n as nat),
        r is Err <==> derive_length_of(length) is None,
        r is Err ==> r == Err::<usize, CryptoError>(CryptoError::DeriveLengthRequired(kind)),
{
    match length {
        Some(Some(bits)) => if bits != 0 && bits % 8 == 0 {
            Ok((bits / 8) as usize)
        } else {
            Err(CryptoError::DeriveLengthRequired(kind))
        },
        _ => Err(CryptoError::DeriveLengthRequired(kind)),
    }
}

/// The mask keeping the `used` high-order bits of a byte.
pub open spec fn high_bits_mask(used: u32) -> u8 {
    (0xFFu8 << ((8 - used) as u8)) as u8
}

/// An ECDH secret cut to `bits`: its first `ceil(bits / 8)` bytes, with the unused low-order
/// bits of a partial last byte cleared.
pub open spec fn truncate_bits(secret: Seq<u8>, bits: u32) -> Seq<u8> {
    let n = ((bits as nat + 7) / 8) as int;
    let t = secret.take(n);
    if bits % 8 != 0 {
        t.update(n - 1, t[n - 1] & high_bits_mask(bits % 8))
    } else {
        t
    }
}

/// ECDH bits of a requested length are a prefix of the shared secret: `ceil(bits / 8)` bytes,
/// each whole byte equal to the secret's byte at the same place, and a partial last byte that
/// keeps the high `bits % 8` bits of the secret's byte there and clears the rest.
pub proof fn ecdh_bits_are_a_prefix_of_the_secret(secret: Seq<u8>, bits: u32)
    requires
        bits <= secret.len() * 8,
    ensures
        truncate_bits(secret, bits).len() == (bits as nat + 7) / 8,
        forall|i: int| 0 <= i < bits / 8 ==> #[trigger] truncate_bits(secret, bits)[i] == secret[i],
        bits % 8 != 0 ==> truncate_bits(secret, bits)[(bits / 8) as int] == secret[(bits / 8) as int] & high_bits_mask(
            bits % 8,
        ),
{
    let n = ((bits as nat + 7) / 8) as int;
    assert(n <= secret.len());
    assert forall|i: int| 0 <= i < bits / 8 implies #[trigger] truncate_bits(secret, bits)[i] == secret[i] by {
        assert(i < n);
        if bits % 8 != 0 {
            assert(i != n - 1);
        }
    }
    if bits % 8 != 0 {
        assert(n - 1 == bits / 8);
    }
}

/// ECDH output for the requested length: the whole secret when no length is given, else the
/// secret cut to `bits` when it has that many bits.
pub open spec fn ecdh_output(secret: Seq<u8>, length: Option<Option<u32>>) -> Option<Seq<u8>> {
    match length {
        Some(Some(bits)) => if bits > secret.len() * 8 {
            None
        } else {
            Some(truncate_bits(secret, bits))
        },
        _ => Some(secret),
    }
}

fn truncate_secret(secret: Vec<u8>, bits: u32) -> (r: Vec<u8>)
    requires
        bits <= secret@.len() * 8,
    ensures
        r@ == truncate_bits(secret@, bits),
        r@.len() == (bits as nat + 7) / 8,
{
    let n: usize = (bits / 8 + if bits % 8 == 0 { 0 } else { 1 }) as usize;
    let mut out: Vec<u8> = Vec::new();
    let mut i: usize = 0;
    while i < n
        invariant
            n == (bits as nat + 7) / 8,
            n <= secret@.len(),
            i <= n,
            out@ == secret@.take(i as int),
        decreases n - i,
    {
        out.push(secret[i]);
        i = i + 1;
        assert(out@ =~= secret@.take(i as int));
    }
    if bits % 8 != 0 {
        let used: u32 = bits % 8;
        let mask: u8 = 0xFFu8 << ((8 - used) as u8);
        let last = out[n - 1];
        out.set(n - 1, last & mask);
        assert(out@ =~= truncate_bits(secret@, bits));
    }
    out
}

/// What deriving bits from `key` under `algorithm` yields (usage not yet considered).
pub open spec fn derive_result(
    algorithm: DeriveBitsAlgorithm,
    key: CryptoKey,
    length: Option<Option<u32>>,
    r: Result<Vec<u8>, CryptoError>,
) -> bool {
    match algorithm {
        DeriveBitsAlgorithm::Ecdh { public } => if key.spec_type() != KeyType::Private {
            r == Err::<Vec<u8>, CryptoError>(CryptoError::WrongKeyType(KeyType::Private))
        } else if !is_ec_key(key, EcVariant::Ecdh) || !is_ec_key(*public, EcVariant::Ecdh) {
            r == Err::<Vec<u8>, CryptoError>(CryptoError::AlgorithmMismatch)
        } else {
            match (key.spec_material(), public.spec_material()) {
                (KeyMaterial::Ec(sk), KeyMaterial::Ec(pk)) => {
                    if sk is Private && pk is Public && sk.curve_of() == pk.curve_of() {
                        match super::ec::ecdh_shared_secret(sk.curve_of(), sk->d@, pk->Public_point@) {
                            Some(secret) => match ecdh_output(secret, length) {
                                Some(out) => r matches Ok(v) && v@ == out,
                                None => r == Err::<Vec<u8>, CryptoError>(CryptoError::LengthTooLong),
                            },
                            None => r == Err::<Vec<u8>, CryptoError>(CryptoError::Ec(super::ec::EcError::InvalidKey)),
                        }
                    } else {
                        r == Err::<Vec<u8>, CryptoError>(CryptoError::Ec(super::ec::EcError::InvalidKey))
                    }
                },
                _ => false,
            }
        },
        DeriveBitsAlgorithm::Hkdf { hash, salt, info } => match derive_length_of(length) {
            None => r == Err::<Vec<u8>, CryptoError>(CryptoError::DeriveLengthRequired(DeriveKind::Hkdf)),
            Some(n) => if !is_derive_key(key, DeriveKind::Hkdf) {
                r == Err::<Vec<u8>, CryptoError>(CryptoError::NotDeriveKey(DeriveKind::Hkdf))
            } else if n > super::kdf::hkdf_max_len(hash) {
                r == Err::<Vec<u8>, CryptoError>(CryptoError::HkdfLengthTooLong)
            } else {
                r matches Ok(v) && super::kdf::is_prefix_of_len(
                    v@,
                    super::kdf::hkdf_okm(hash, salt@, key.spec_material().spec_bytes(), info@),
                    n,
                )
            },
        },
        DeriveBitsAlgorithm::Pbkdf2 { hash, salt, iterations } => match derive_length_of(length) {
            None => r == Err::<Vec<u8>, CryptoError>(CryptoError::DeriveLengthRequired(DeriveKind::Pbkdf2)),
            Some(n) => if iterations == 0 {
                r == Err::<Vec<u8>, CryptoError>(CryptoError::ZeroIterations)
            } else if !is_derive_key(key, DeriveKind::Pbkdf2) {
                r == Err::<Vec<u8>, CryptoError>(CryptoError::NotDeriveKey(DeriveKind::Pbkdf2))
            } else {
                r matches Ok(v) && super::kdf::is_prefix_of_len(
                    v@,
                    super::kdf::pbkdf2_stream(hash, key.spec_material().spec_bytes(), salt@, iterations),
                    n,
                )
            },
        },
    }
}

/// The derivation itself, without the usage check (shared by `deriveBits()`, which needs
/// `"deriveBits"`, and `deriveKey()`, which needs `"deriveKey"`). `length` is the `length`
/// argument: absent, explicitly null, or a bit count.
pub fn derive_bits_bytes(algorithm: &DeriveBitsAlgorithm, key: &CryptoKey, length: Option<Option<u32>>) -> (r: Result<
    Vec<u8>,
    CryptoError,
>)
    ensures
        derive_result(*algorithm, *key, length, r),
{
    match algorithm {
        DeriveBitsAlgorithm::Ecdh { public } => {
            require_key_type(key, KeyType::Private)?;
            require_ec_variant(key, EcVariant::Ecdh)?;
            require_ec_variant(public, EcVariant::Ecdh)?;
            let (sk, pk) = match (key.material(), public.material()) {
                (KeyMaterial::Ec(sk), KeyMaterial::Ec(pk)) => (sk, pk),
                _ => return Err(CryptoError::AlgorithmMismatch),
            };
            let secret = match super::ec::ecdh_derive_bits(sk, pk) {
                Ok(s) => s,
                Err(e) => return Err(CryptoError::Ec(e)),
            };
            match length {
                Some(Some(bits)) => {
                    if bits as usize / 8 > secret.len() || (bits as usize / 8 == secret.len() && bits % 8 != 0) {
                        return Err(CryptoError::LengthTooLong);
                    }
                    Ok(truncate_secret(secret, bits))
                },
                _ => Ok(secret),
            }
        },
        DeriveBitsAlgorithm::Hkdf { hash, salt, info } => {
            let n = require_derive_length(length, DeriveKind::Hkdf)?;
            let ikm = require_derive_key(key, DeriveKind::Hkdf)?;
            match super::kdf::hkdf_derive_bits(*hash, salt.as_slice(), ikm.as_slice(), info.as_slice(), n) {
                Ok(okm) => Ok(okm),
                Err(_) => Err(CryptoError::HkdfLengthTooLong),
            }
        },
        DeriveBitsAlgorithm::Pbkdf2 { hash, salt, iterations } => {
            let n = require_derive_length(length, DeriveKind::Pbkdf2)?;
            if *iterations == 0 {
                return Err(CryptoError::ZeroIterations);
            }
            let password = require_derive_key(key, DeriveKind::Pbkdf2)?;
            Ok(super::kdf::pbkdf2_derive_bits(*hash, password.as_slice(), salt.as_slice(), *iterations, n))
        },
    }
}

/// `deriveBits()`: needs the `"deriveBits"` usage, then derives as [`derive_bits_bytes`].
pub fn derive_bits(algorithm: &DeriveBitsAlgorithm, base_key: &CryptoKey, length: Option<Option<u32>>) -> (r: Result<
    Vec<u8>,
    CryptoError,
>)
    ensures
        !base_key.spec_usages().contains(KeyUsage::DeriveBits) ==> r == Err::<Vec<u8>, CryptoError>(
            CryptoError::UsageNotAllowed(KeyUsage::DeriveBits),
        ),
        base_key.spec_usages().contains(KeyUsage::DeriveBits) ==> derive_result(*algorithm, *base_key, length, r),
{
    require_usage(base_key, KeyUsage::DeriveBits)?;
    derive_bits_bytes(algorithm, base_key, length)
}


/// The key length `deriveKey()` derives for the requested key: the AES length, or the HMAC
/// length (defaulting to the hash's block size); other algorithms can't be derived.
pub open spec fn derived_key_bits(algorithm: KeyGenAlgorithm) -> Option<u32> {
    match algorithm {
        KeyGenAlgorithm::Aes { length, .. } => Some(length as u32),
        KeyGenAlgorithm::Hmac { hash, length } => Some(super::key::hmac_length(hash, length)),
        _ => None,
    }
}

/// The import algorithm for a derived key.
pub open spec fn derived_import_algorithm(algorithm: KeyGenAlgorithm) -> ImportAlgorithm {
    match algorithm {
        KeyGenAlgorithm::Aes { variant, .. } => ImportAlgorithm::Aes(variant),
        KeyGenAlgorithm::Hmac { hash, .. } => ImportAlgorithm::Hmac { hash },
        _ => ImportAlgorithm::Hkdf,
    }
}

/// `deriveKey()`: derives as many bits as the requested AES or HMAC key needs (needing the
/// `"deriveKey"` usage on the base key) and imports them as a raw key of that algorithm.
pub fn derive_key(
    algorithm: &DeriveBitsAlgorithm,
    base_key: &CryptoKey,
    derived_key_algorithm: &KeyGenAlgorithm,
    extractable: bool,
    usages: Vec<KeyUsage>,
) -> (r: Result<CryptoKey, CryptoError>)
    ensures
        derived_key_bits(*derived_key_algorithm) is None ==> r == Err::<CryptoKey, CryptoError>(CryptoError::DeriveKeyUnsupported),
        derived_key_bits(*derived_key_algorithm) is Some && !base_key.spec_usages().contains(KeyUsage::DeriveKey) ==> r
            == Err::<CryptoKey, CryptoError>(CryptoError::UsageNotAllowed(KeyUsage::DeriveKey)),
        r matches Ok(k) ==> exists|b: Vec<u8>|
            derive_result(
                *algorithm,
                *base_key,
                Some(Some(derived_key_bits(*derived_key_algorithm)->0)),
                Ok::<Vec<u8>, CryptoError>(b),
            ) && super::key::imported(
                k,
                KeyFormat::Raw,
                KeyData::Bytes(b),
                derived_import_algorithm(*derived_key_algorithm),
                extractable,
                usages@,
            ),
{
    let (length_bits, import_algorithm) = match derived_key_algorithm {
        KeyGenAlgorithm::Aes { variant, length } => (*length as u32, ImportAlgorithm::Aes(*variant)),
        KeyGenAlgorithm::Hmac { hash, length } => {
            let bits: u32 = match length {
                Some(l) => *l,
                None => super::hmac::default_key_length_bits(*hash),
            };
            (bits, ImportAlgorithm::Hmac { hash: *hash })
        },
        _ => return Err(CryptoError::DeriveKeyUnsupported),
    };
    require_usage(base_key, KeyUsage::DeriveKey)?;
    let bytes = derive_bits_bytes(algorithm, base_key, Some(Some(length_bits)));
    let b = match bytes {
        Ok(b) => b,
        Err(e) => return Err(e),
    };
    let ghost gb = b;
    let imported = super::key::import_key(KeyFormat::Raw, KeyData::Bytes(b), import_algorithm, extractable, usages);
    proof {
        if imported is Ok {
            assert(derive_result(
                *algorithm,
                *base_key,
                Some(Some(derived_key_bits(*derived_key_algorithm)->0)),
                Ok::<Vec<u8>, CryptoError>(gb),
            ));
        }
    }
    imported
}

// ---------------------------------------------------------------------------------------------
// wrapKey / unwrapKey
// ---------------------------------------------------------------------------------------------

/// `wrapKey()`: exports `key` in a byte format and encrypts the bytes with `wrapping_key`
/// (which needs the `"wrapKey"` usage). The `"jwk"` format is refused with
/// [`CryptoError::JwkWrapUnsupported`].
pub fn wrap_key(
    format: KeyFormat,
    key: &CryptoKey,
    wrapping_key: &CryptoKey,
    wrap_algorithm: &CipherAlgorithm,
) -> (r: Result<Vec<u8>, CryptoError>)
    ensures
        format is Jwk ==> r == Err::<Vec<u8>, CryptoError>(CryptoError::JwkWrapUnsupported),
        format !is Jwk && !wrapping_key.spec_usages().contains(KeyUsage::WrapKey) ==> r == Err::<Vec<u8>, CryptoError>(
            CryptoError::UsageNotAllowed(KeyUsage::WrapKey),
        ),
        format !is Jwk && !key.spec_extractable() && wrapping_key.spec_usages().contains(KeyUsage::WrapKey) ==> r == Err::<
            Vec<u8>,
            CryptoError,
        >(CryptoError::NotExtractable),
        r matches Ok(ct) ==> exists|exported: Seq<u8>|
            encrypt_result(*wrap_algorithm, *wrapping_key, exported, Ok::<Vec<u8>, CryptoError>(ct)),
{
    if format == KeyFormat::Jwk {
        return Err(CryptoError::JwkWrapUnsupported);
    }
    require_usage(wrapping_key, KeyUsage::WrapKey)?;
    let exported = super::key::export_key(format, key)?;
    let data = match exported {
        super::key::ExportedKey::Bytes(b) => b,
        super::key::ExportedKey::Jwk(_) => return Err(CryptoError::JwkWrapUnsupported),
    };
    let r = encrypt_bytes(wrap_algorithm, wrapping_key, data.as_slice());
    proof {
        if r is Ok {
            assert(r == Ok::<Vec<u8>, CryptoError>(r->Ok_0));
            assert(encrypt_result(*wrap_algorithm, *wrapping_key, data@, Ok::<Vec<u8>, CryptoError>(r->Ok_0)));
        }
    }
    r
}

/// `unwrapKey()`: decrypts `wrapped_key` with `unwrapping_key` (which needs the
/// `"unwrapKey"` usage) and imports the bytes in `format`. The `"jwk"` format is refused with
/// [`CryptoError::JwkWrapUnsupported`].
pub fn unwrap_key(
    format: KeyFormat,
    wrapped_key: &[u8],
    unwrapping_key: &CryptoKey,
    unwrap_algorithm: &CipherAlgorithm,
    unwrapped_key_algorithm: ImportAlgorithm,
    extractable: bool,
    usages: Vec<KeyUsage>,
) -> (r: Result<CryptoKey, CryptoError>)
    ensures
        format is Jwk ==> r == Err::<CryptoKey, CryptoError>(CryptoError::JwkWrapUnsupported),
        format !is Jwk && !unwrapping_key.spec_usages().contains(KeyUsage::UnwrapKey) ==> r == Err::<CryptoKey, CryptoError>(
            CryptoError::UsageNotAllowed(KeyUsage::UnwrapKey),
        ),
        r matches Ok(k) ==> exists|plain: Vec<u8>|
            decrypt_result(*unwrap_algorithm, *unwrapping_key, wrapped_key@, Ok::<Vec<u8>, CryptoError>(plain))
                && super::key::imported(k, format, KeyData::Bytes(plain), unwrapped_key_algorithm, extractable, usages@),
{
    if format == KeyFormat::Jwk {
        return Err(CryptoError::JwkWrapUnsupported);
    }
    require_usage(unwrapping_key, KeyUsage::UnwrapKey)?;
    let plain = decrypt_bytes(unwrap_algorithm, unwrapping_key, wrapped_key)?;
    let ghost p = plain;
    let r = super::key::import_key(format, KeyData::Bytes(plain), unwrapped_key_algorithm, extractable, usages);
    proof {
        if r is Ok {
            assert(decrypt_result(*unwrap_algorithm, *unwrapping_key, wrapped_key@, Ok::<Vec<u8>, CryptoError>(p)));
        }
    }
    r
}

} // verus!
