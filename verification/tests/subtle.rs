use klaver_wintertc::crypto::algorithm::{CipherAlgorithm, DeriveBitsAlgorithm, SignAlgorithm};
use klaver_wintertc::crypto::digest::Algo;
use klaver_wintertc::crypto::ec::EcCurve;
use klaver_wintertc::crypto::key::{
    generate_key, import_key, export_key, AesVariant, CryptoError, CryptoKey, EcVariant, ErrorName,
    ExportedKey, GeneratedKey, ImportAlgorithm, KeyAlgorithm, KeyData, KeyFormat, KeyGenAlgorithm,
    KeyType, KeyUsage, RsaVariant,
};
use klaver_wintertc::crypto::random::random_bytes;
use klaver_wintertc::crypto::subtle::{
    decrypt, derive_bits, derive_key, encrypt, sign, unwrap_key, verify, wrap_key,
};

fn secret(g: GeneratedKey) -> CryptoKey {
    match g {
        GeneratedKey::Secret(k) => k,
        GeneratedKey::Pair { .. } => panic!("expected a secret key"),
    }
}

fn pair(g: GeneratedKey) -> (CryptoKey, CryptoKey) {
    match g {
        GeneratedKey::Pair { public_key, private_key } => (public_key, private_key),
        GeneratedKey::Secret(_) => panic!("expected a key pair"),
    }
}

fn aes_key(variant: AesVariant, length: u16, extractable: bool, usages: Vec<KeyUsage>) -> CryptoKey {
    secret(generate_key(KeyGenAlgorithm::Aes { variant, length }, extractable, usages).unwrap())
}

fn rsa_pair(variant: RsaVariant, usages: Vec<KeyUsage>) -> (CryptoKey, CryptoKey) {
    pair(
        generate_key(
            KeyGenAlgorithm::RsaHashed {
                variant,
                modulus_length: 1024,
                public_exponent: vec![1, 0, 1],
                hash: Algo::Sha256,
            },
            true,
            usages,
        )
        .unwrap(),
    )
}

fn ec_pair(variant: EcVariant, curve: EcCurve, usages: Vec<KeyUsage>) -> (CryptoKey, CryptoKey) {
    pair(generate_key(KeyGenAlgorithm::Ec { variant, named_curve: curve }, true, usages).unwrap())
}

fn raw(e: ExportedKey) -> Vec<u8> {
    match e {
        ExportedKey::Bytes(b) => b,
        ExportedKey::Jwk(_) => panic!("expected bytes"),
    }
}

fn gcm(iv: &[u8]) -> CipherAlgorithm {
    CipherAlgorithm::AesGcm { iv: iv.to_vec(), additional_data: None, tag_length_bits: 128 }
}

const ED: [KeyUsage; 2] = [KeyUsage::Encrypt, KeyUsage::Decrypt];

#[test]
fn aes_gcm_round_trips_and_rejects_tampering() {
    let key = aes_key(AesVariant::Gcm, 256, true, ED.to_vec());
    let iv = random_bytes(12);
    let data = [1u8, 2, 3, 4, 5, 6, 7, 8, 9, 10];
    let ct = encrypt(&gcm(&iv), &key, &data).unwrap();
    assert_eq!(decrypt(&gcm(&iv), &key, &ct).unwrap(), data);
    let mut tampered = ct.clone();
    tampered[0] ^= 1;
    let err = decrypt(&gcm(&iv), &key, &tampered).unwrap_err();
    assert_eq!(err.name(), ErrorName::OperationError);
}

#[test]
fn aes_cbc_round_trips_non_block_aligned_data() {
    let key = aes_key(AesVariant::Cbc, 128, true, ED.to_vec());
    let alg = CipherAlgorithm::AesCbc { iv: random_bytes(16) };
    let data = [1u8, 2, 3, 4, 5];
    let ct = encrypt(&alg, &key, &data).unwrap();
    assert_eq!(decrypt(&alg, &key, &ct).unwrap(), data);
}

#[test]
fn aes_ctr_round_trips() {
    let key = aes_key(AesVariant::Ctr, 128, true, ED.to_vec());
    let alg = CipherAlgorithm::AesCtr { counter: random_bytes(16), length_bits: 64 };
    let data: Vec<u8> = (0..64).collect();
    let ct = encrypt(&alg, &key, &data).unwrap();
    assert_eq!(decrypt(&alg, &key, &ct).unwrap(), data);
    let bad = CipherAlgorithm::AesCtr { counter: vec![0; 8], length_bits: 64 };
    assert_eq!(encrypt(&bad, &key, &data).unwrap_err().name(), ErrorName::OperationError);
}

#[test]
fn hmac_sign_and_verify() {
    let key = secret(
        generate_key(
            KeyGenAlgorithm::Hmac { hash: Algo::Sha256, length: None },
            true,
            vec![KeyUsage::Sign, KeyUsage::Verify],
        )
        .unwrap(),
    );
    let data = [1u8, 2, 3, 4];
    let sig = sign(&SignAlgorithm::Hmac, &key, &data).unwrap();
    assert_eq!(verify(&SignAlgorithm::Hmac, &key, &sig, &data), Ok(true));
    let mut tampered = sig.clone();
    tampered[0] ^= 1;
    assert_eq!(verify(&SignAlgorithm::Hmac, &key, &tampered, &data), Ok(false));
    match key.algorithm() {
        KeyAlgorithm::Hmac { length, .. } => assert_eq!(*length, 512),
        other => panic!("unexpected algorithm {other:?}"),
    }
}

#[test]
fn generate_import_export_round_trips_through_raw_and_jwk() {
    let key = aes_key(AesVariant::Gcm, 128, true, ED.to_vec());
    let exported = raw(export_key(KeyFormat::Raw, &key).unwrap());
    assert_eq!(exported.len(), 16);
    let imported = import_key(
        KeyFormat::Raw,
        KeyData::Bytes(exported.clone()),
        ImportAlgorithm::Aes(AesVariant::Gcm),
        true,
        ED.to_vec(),
    )
    .unwrap();
    assert_eq!(raw(export_key(KeyFormat::Raw, &imported).unwrap()), exported);

    let jwk = match export_key(KeyFormat::Jwk, &key).unwrap() {
        ExportedKey::Jwk(j) => j,
        ExportedKey::Bytes(_) => panic!("expected a JWK"),
    };
    assert_eq!(jwk.kty.as_deref(), Some("oct"));
    assert_eq!(jwk.alg.as_deref(), Some("A128GCM"));
    assert_eq!(jwk.ext, Some(true));
    let from_jwk = import_key(
        KeyFormat::Jwk,
        KeyData::Jwk(jwk),
        ImportAlgorithm::Aes(AesVariant::Gcm),
        true,
        ED.to_vec(),
    )
    .unwrap();
    assert_eq!(raw(export_key(KeyFormat::Raw, &from_jwk).unwrap()), exported);
}

#[test]
fn crypto_key_getters_and_illegal_constructor() {
    let key = aes_key(AesVariant::Gcm, 128, true, ED.to_vec());
    assert_eq!(key.key_type(), KeyType::Secret);
    assert_eq!(key.key_type().as_str(), "secret");
    assert!(key.extractable());
    match key.algorithm() {
        KeyAlgorithm::Aes { name, length } => {
            assert_eq!(name.name(), "AES-GCM");
            assert_eq!(*length, 128);
        }
        other => panic!("unexpected algorithm {other:?}"),
    }
    assert!(key.usages().contains(&KeyUsage::Encrypt) && key.usages().contains(&KeyUsage::Decrypt));
}

#[test]
fn encrypt_with_wrong_key_kind_throws_invalid_access_error() {
    let hmac_key = secret(
        generate_key(
            KeyGenAlgorithm::Hmac { hash: Algo::Sha256, length: None },
            true,
            vec![KeyUsage::Sign, KeyUsage::Verify, KeyUsage::Encrypt],
        )
        .unwrap(),
    );
    let err = encrypt(&gcm(&[0; 12]), &hmac_key, &[0; 4]).unwrap_err();
    assert_eq!(err.name(), ErrorName::InvalidAccessError);
    let no_usage = aes_key(AesVariant::Gcm, 128, true, vec![KeyUsage::Decrypt]);
    assert_eq!(
        encrypt(&gcm(&[0; 12]), &no_usage, &[0; 4]),
        Err(CryptoError::UsageNotAllowed(KeyUsage::Encrypt))
    );
}

#[test]
fn non_extractable_key_cannot_be_exported() {
    let key = aes_key(AesVariant::Gcm, 128, false, ED.to_vec());
    let err = export_key(KeyFormat::Raw, &key).err().unwrap();
    assert_eq!(err, CryptoError::NotExtractable);
    assert_eq!(err.name(), ErrorName::InvalidAccessError);
}

#[test]
fn generate_key_returns_a_crypto_key_pair() {
    let (public, private) = rsa_pair(RsaVariant::Pkcs1v15, vec![KeyUsage::Sign, KeyUsage::Verify]);
    assert_eq!(private.key_type(), KeyType::Private);
    assert_eq!(public.key_type(), KeyType::Public);
    assert!(private.usages().contains(&KeyUsage::Sign));
    assert!(public.usages().contains(&KeyUsage::Verify));
    assert!(!private.usages().contains(&KeyUsage::Verify));
    assert!(public.extractable());
}

#[test]
fn rsassa_pkcs1_v1_5_sign_and_verify_round_trips_and_rejects_tampering() {
    let (public, private) = rsa_pair(RsaVariant::Pkcs1v15, vec![KeyUsage::Sign, KeyUsage::Verify]);
    let data = [1u8, 2, 3, 4, 5];
    let sig = sign(&SignAlgorithm::RsaSsaPkcs1, &private, &data).unwrap();
    assert_eq!(verify(&SignAlgorithm::RsaSsaPkcs1, &public, &sig, &data), Ok(true));
    let mut tampered = sig.clone();
    tampered[0] ^= 1;
    assert_eq!(verify(&SignAlgorithm::RsaSsaPkcs1, &public, &tampered, &data), Ok(false));
}

#[test]
fn rsa_oaep_encrypt_and_decrypt_round_trips() {
    let (public, private) = rsa_pair(RsaVariant::Oaep, vec![KeyUsage::Encrypt, KeyUsage::Decrypt]);
    let data = [1u8, 2, 3, 4, 5, 6, 7, 8];
    let alg = CipherAlgorithm::RsaOaep { label: None };
    let ct = encrypt(&alg, &public, &data).unwrap();
    assert_eq!(decrypt(&alg, &private, &ct).unwrap(), data);
}

#[test]
fn ecdsa_p256_and_p384_sign_and_verify_round_trip() {
    for curve in [EcCurve::P256, EcCurve::P384, EcCurve::P521] {
        let (public, private) = ec_pair(EcVariant::Ecdsa, curve, vec![KeyUsage::Sign, KeyUsage::Verify]);
        let data = [9u8, 8, 7, 6, 5];
        let alg = SignAlgorithm::Ecdsa { hash: Algo::Sha256 };
        let sig = sign(&alg, &private, &data).unwrap();
        assert_eq!(verify(&alg, &public, &sig, &data), Ok(true));
        let mut tampered = sig.clone();
        tampered[0] ^= 1;
        assert_eq!(verify(&alg, &public, &tampered, &data), Ok(false));
    }
}

#[test]
fn ecdh_derive_bits_produces_a_matching_shared_secret_on_both_sides() {
    let (a_pub, a_priv) = ec_pair(EcVariant::Ecdh, EcCurve::P256, vec![KeyUsage::DeriveBits]);
    let (b_pub, b_priv) = ec_pair(EcVariant::Ecdh, EcCurve::P256, vec![KeyUsage::DeriveBits]);
    assert!(a_pub.usages().is_empty());
    let a = derive_bits(&DeriveBitsAlgorithm::Ecdh { public: &b_pub }, &a_priv, Some(Some(256))).unwrap();
    let b = derive_bits(&DeriveBitsAlgorithm::Ecdh { public: &a_pub }, &b_priv, Some(Some(256))).unwrap();
    assert_eq!(a.len(), 32);
    assert_eq!(a, b);
    // Truncation to a partial byte keeps the high bits only.
    let t = derive_bits(&DeriveBitsAlgorithm::Ecdh { public: &b_pub }, &a_priv, Some(Some(12))).unwrap();
    assert_eq!(t.len(), 2);
    assert_eq!(t[0], a[0]);
    assert_eq!(t[1], a[1] & 0xF0);
    assert_eq!(
        derive_bits(&DeriveBitsAlgorithm::Ecdh { public: &b_pub }, &a_priv, Some(Some(257))),
        Err(CryptoError::LengthTooLong)
    );
    assert_eq!(derive_bits(&DeriveBitsAlgorithm::Ecdh { public: &b_pub }, &a_priv, None).unwrap(), a);
}

#[test]
fn ecdh_derive_key_produces_a_usable_aes_gcm_key() {
    let (a_pub, a_priv) = ec_pair(EcVariant::Ecdh, EcCurve::P256, vec![KeyUsage::DeriveKey]);
    let (b_pub, b_priv) = ec_pair(EcVariant::Ecdh, EcCurve::P256, vec![KeyUsage::DeriveKey]);
    let target = KeyGenAlgorithm::Aes { variant: AesVariant::Gcm, length: 128 };
    let a_key = derive_key(&DeriveBitsAlgorithm::Ecdh { public: &b_pub }, &a_priv, &target, false, vec![KeyUsage::Encrypt]).unwrap();
    let b_key = derive_key(&DeriveBitsAlgorithm::Ecdh { public: &a_pub }, &b_priv, &target, false, vec![KeyUsage::Decrypt]).unwrap();
    let iv = random_bytes(12);
    let data = [1u8, 2, 3, 4];
    let ct = encrypt(&gcm(&iv), &a_key, &data).unwrap();
    assert_eq!(decrypt(&gcm(&iv), &b_key, &ct).unwrap(), data);
}

#[test]
fn rsa_pkcs8_and_spki_export_import_round_trip() {
    let (public, private) = rsa_pair(RsaVariant::Pkcs1v15, vec![KeyUsage::Sign, KeyUsage::Verify]);
    let alg = ImportAlgorithm::RsaHashed { variant: RsaVariant::Pkcs1v15, hash: Algo::Sha256 };
    let pkcs8 = raw(export_key(KeyFormat::Pkcs8, &private).unwrap());
    let imported_private = import_key(KeyFormat::Pkcs8, KeyData::Bytes(pkcs8), alg, true, vec![KeyUsage::Sign]).unwrap();
    let alg = ImportAlgorithm::RsaHashed { variant: RsaVariant::Pkcs1v15, hash: Algo::Sha256 };
    let spki = raw(export_key(KeyFormat::Spki, &public).unwrap());
    let imported_public = import_key(KeyFormat::Spki, KeyData::Bytes(spki), alg, true, vec![KeyUsage::Verify]).unwrap();
    match imported_public.algorithm() {
        KeyAlgorithm::RsaHashed { modulus_length, public_exponent, .. } => {
            assert_eq!(*modulus_length, 1024);
            assert_eq!(public_exponent, &vec![1, 0, 1]);
        }
        other => panic!("unexpected algorithm {other:?}"),
    }
    let data = [1u8, 2, 3];
    let sig = sign(&SignAlgorithm::RsaSsaPkcs1, &imported_private, &data).unwrap();
    assert_eq!(verify(&SignAlgorithm::RsaSsaPkcs1, &imported_public, &sig, &data), Ok(true));
    assert_eq!(
        export_key(KeyFormat::Spki, &private).err(),
        Some(CryptoError::ExportNeedsPublic(KeyFormat::Spki))
    );
}

#[test]
fn ec_pkcs8_and_spki_export_import_round_trip() {
    let (public, private) = ec_pair(EcVariant::Ecdsa, EcCurve::P256, vec![KeyUsage::Sign, KeyUsage::Verify]);
    let alg = || ImportAlgorithm::Ec { variant: EcVariant::Ecdsa, named_curve: EcCurve::P256 };
    let pkcs8 = raw(export_key(KeyFormat::Pkcs8, &private).unwrap());
    let imported_private = import_key(KeyFormat::Pkcs8, KeyData::Bytes(pkcs8), alg(), true, vec![KeyUsage::Sign]).unwrap();
    let spki = raw(export_key(KeyFormat::Spki, &public).unwrap());
    let imported_public = import_key(KeyFormat::Spki, KeyData::Bytes(spki), alg(), true, vec![KeyUsage::Verify]).unwrap();
    let point = raw(export_key(KeyFormat::Raw, &imported_public).unwrap());
    let from_raw = import_key(KeyFormat::Raw, KeyData::Bytes(point), alg(), true, vec![KeyUsage::Verify]).unwrap();
    let data = [4u8, 5, 6];
    let ecdsa = SignAlgorithm::Ecdsa { hash: Algo::Sha256 };
    let sig = sign(&ecdsa, &imported_private, &data).unwrap();
    assert_eq!(verify(&ecdsa, &imported_public, &sig, &data), Ok(true));
    assert_eq!(verify(&ecdsa, &from_raw, &sig, &data), Ok(true));
}

#[test]
fn rsa_jwk_export_import_round_trip() {
    let (public, private) = rsa_pair(RsaVariant::Pkcs1v15, vec![KeyUsage::Sign, KeyUsage::Verify]);
    let jwk = match export_key(KeyFormat::Jwk, &private).unwrap() {
        ExportedKey::Jwk(j) => j,
        _ => panic!("expected a JWK"),
    };
    assert_eq!(jwk.kty.as_deref(), Some("RSA"));
    assert!(jwk.d.is_some() && jwk.p.is_some() && jwk.q.is_some());
    assert_eq!(jwk.alg.as_deref(), Some("RS256"));
    let alg = || ImportAlgorithm::RsaHashed { variant: RsaVariant::Pkcs1v15, hash: Algo::Sha256 };
    let imported_private = import_key(KeyFormat::Jwk, KeyData::Jwk(jwk), alg(), true, vec![KeyUsage::Sign]).unwrap();
    let pub_jwk = match export_key(KeyFormat::Jwk, &public).unwrap() {
        ExportedKey::Jwk(j) => j,
        _ => panic!("expected a JWK"),
    };
    assert!(pub_jwk.d.is_none());
    let imported_public = import_key(KeyFormat::Jwk, KeyData::Jwk(pub_jwk), alg(), true, vec![KeyUsage::Verify]).unwrap();
    let data = [7u8, 8, 9];
    let sig = sign(&SignAlgorithm::RsaSsaPkcs1, &imported_private, &data).unwrap();
    assert_eq!(verify(&SignAlgorithm::RsaSsaPkcs1, &imported_public, &sig, &data), Ok(true));
}

#[test]
fn ec_jwk_export_import_round_trip() {
    let (public, private) = ec_pair(EcVariant::Ecdsa, EcCurve::P256, vec![KeyUsage::Sign, KeyUsage::Verify]);
    let jwk = match export_key(KeyFormat::Jwk, &private).unwrap() {
        ExportedKey::Jwk(j) => j,
        _ => panic!("expected a JWK"),
    };
    assert_eq!(jwk.kty.as_deref(), Some("EC"));
    assert_eq!(jwk.crv.as_deref(), Some("P-256"));
    assert!(jwk.d.is_some());
    assert!(jwk.alg.is_none());
    let alg = || ImportAlgorithm::Ec { variant: EcVariant::Ecdsa, named_curve: EcCurve::P256 };
    let imported_private = import_key(KeyFormat::Jwk, KeyData::Jwk(jwk), alg(), true, vec![KeyUsage::Sign]).unwrap();
    let pub_jwk = match export_key(KeyFormat::Jwk, &public).unwrap() {
        ExportedKey::Jwk(j) => j,
        _ => panic!("expected a JWK"),
    };
    let imported_public = import_key(KeyFormat::Jwk, KeyData::Jwk(pub_jwk), alg(), true, vec![KeyUsage::Verify]).unwrap();
    let data = [1u8, 1, 2, 3, 5];
    let ecdsa = SignAlgorithm::Ecdsa { hash: Algo::Sha256 };
    let sig = sign(&ecdsa, &imported_private, &data).unwrap();
    assert_eq!(verify(&ecdsa, &imported_public, &sig, &data), Ok(true));
}

#[test]
fn wrap_key_and_unwrap_key_round_trip_with_an_aes_wrapping_key() {
    let to_wrap = aes_key(AesVariant::Gcm, 128, true, ED.to_vec());
    let wrapping = aes_key(AesVariant::Gcm, 256, true, vec![KeyUsage::WrapKey, KeyUsage::UnwrapKey]);
    let iv = random_bytes(12);
    let wrapped = wrap_key(KeyFormat::Raw, &to_wrap, &wrapping, &gcm(&iv)).unwrap();
    let unwrapped = unwrap_key(
        KeyFormat::Raw,
        &wrapped,
        &wrapping,
        &gcm(&iv),
        ImportAlgorithm::Aes(AesVariant::Gcm),
        true,
        ED.to_vec(),
    )
    .unwrap();
    assert_eq!(
        raw(export_key(KeyFormat::Raw, &to_wrap).unwrap()),
        raw(export_key(KeyFormat::Raw, &unwrapped).unwrap())
    );
    assert_eq!(
        wrap_key(KeyFormat::Jwk, &to_wrap, &wrapping, &gcm(&iv)),
        Err(CryptoError::JwkWrapUnsupported)
    );
}

#[test]
fn wrap_key_and_unwrap_key_round_trip_with_an_rsa_oaep_wrapping_key() {
    let to_wrap = aes_key(AesVariant::Gcm, 128, true, ED.to_vec());
    let (public, private) = rsa_pair(RsaVariant::Oaep, vec![KeyUsage::WrapKey, KeyUsage::UnwrapKey]);
    let oaep = CipherAlgorithm::RsaOaep { label: None };
    let wrapped = wrap_key(KeyFormat::Raw, &to_wrap, &public, &oaep).unwrap();
    let unwrapped = unwrap_key(
        KeyFormat::Raw,
        &wrapped,
        &private,
        &oaep,
        ImportAlgorithm::Aes(AesVariant::Gcm),
        true,
        ED.to_vec(),
    )
    .unwrap();
    assert_eq!(
        raw(export_key(KeyFormat::Raw, &to_wrap).unwrap()),
        raw(export_key(KeyFormat::Raw, &unwrapped).unwrap())
    );
}

#[test]
fn rsassa_pss_sign_and_verify_round_trips_and_rejects_tampering() {
    let (public, private) = rsa_pair(RsaVariant::Pss, vec![KeyUsage::Sign, KeyUsage::Verify]);
    let alg = SignAlgorithm::RsaPss { salt_length: 32 };
    let data = [1u8, 2, 3, 4, 5];
    let sig = sign(&alg, &private, &data).unwrap();
    assert_eq!(verify(&alg, &public, &sig, &data), Ok(true));
    let mut tampered = sig.clone();
    tampered[0] ^= 1;
    assert_eq!(verify(&alg, &public, &tampered, &data), Ok(false));
}

#[test]
fn rsassa_pss_signatures_are_randomized() {
    let (public, private) = rsa_pair(RsaVariant::Pss, vec![KeyUsage::Sign, KeyUsage::Verify]);
    let alg = SignAlgorithm::RsaPss { salt_length: 32 };
    let data = [1u8, 2, 3];
    let sig1 = sign(&alg, &private, &data).unwrap();
    let sig2 = sign(&alg, &private, &data).unwrap();
    assert_ne!(sig1, sig2);
    assert_eq!(verify(&alg, &public, &sig2, &data), Ok(true));
}

#[test]
fn ecdh_p521_derive_bits_produces_a_matching_shared_secret_on_both_sides() {
    let (a_pub, a_priv) = ec_pair(EcVariant::Ecdh, EcCurve::P521, vec![KeyUsage::DeriveBits]);
    let (b_pub, b_priv) = ec_pair(EcVariant::Ecdh, EcCurve::P521, vec![KeyUsage::DeriveBits]);
    let a = derive_bits(&DeriveBitsAlgorithm::Ecdh { public: &b_pub }, &a_priv, Some(Some(528))).unwrap();
    let b = derive_bits(&DeriveBitsAlgorithm::Ecdh { public: &a_pub }, &b_priv, Some(Some(528))).unwrap();
    assert_eq!(a.len(), 66);
    assert_eq!(a, b);
}

#[test]
fn hkdf_derive_bits_matches_rfc5869_test_case_1() {
    let ikm = vec![0x0bu8; 22];
    let salt: Vec<u8> = (0..13).collect();
    let info: Vec<u8> = (0xf0..=0xf9).collect();
    let expected: [u8; 42] = [
        0x3c, 0xb2, 0x5f, 0x25, 0xfa, 0xac, 0xd5, 0x7a, 0x90, 0x43, 0x4f, 0x64, 0xd0, 0x36, 0x2f,
        0x2a, 0x2d, 0x2d, 0x0a, 0x90, 0xcf, 0x1a, 0x5a, 0x4c, 0x5d, 0xb0, 0x2d, 0x56, 0xec, 0xc4,
        0xc5, 0xbf, 0x34, 0x00, 0x72, 0x08, 0xd5, 0xb8, 0x87, 0x18, 0x58, 0x65,
    ];
    let base = import_key(KeyFormat::Raw, KeyData::Bytes(ikm), ImportAlgorithm::Hkdf, false, vec![KeyUsage::DeriveBits]).unwrap();
    let okm = derive_bits(&DeriveBitsAlgorithm::Hkdf { hash: Algo::Sha256, salt, info }, &base, Some(Some(42 * 8))).unwrap();
    assert_eq!(okm, expected);
}

#[test]
fn hkdf_base_key_cannot_be_extractable() {
    let err = import_key(KeyFormat::Raw, KeyData::Bytes(vec![0; 16]), ImportAlgorithm::Hkdf, true, vec![KeyUsage::DeriveBits])
        .err()
        .unwrap();
    assert_eq!(err.name(), ErrorName::SyntaxError);
}

#[test]
fn hkdf_derive_key_produces_a_usable_aes_gcm_key() {
    let base = import_key(KeyFormat::Raw, KeyData::Bytes(vec![7; 32]), ImportAlgorithm::Hkdf, false, vec![KeyUsage::DeriveKey]).unwrap();
    let alg = DeriveBitsAlgorithm::Hkdf { hash: Algo::Sha256, salt: random_bytes(16), info: Vec::new() };
    let target = KeyGenAlgorithm::Aes { variant: AesVariant::Gcm, length: 128 };
    let key = derive_key(&alg, &base, &target, false, ED.to_vec()).unwrap();
    let iv = random_bytes(12);
    let data = [1u8, 2, 3, 4];
    let ct = encrypt(&gcm(&iv), &key, &data).unwrap();
    assert_eq!(decrypt(&gcm(&iv), &key, &ct).unwrap(), data);
}

#[test]
fn pbkdf2_derive_bits_matches_rfc6070_test_case_1() {
    let expected = [
        0x0cu8, 0x60, 0xc8, 0x0f, 0x96, 0x1f, 0x0e, 0x71, 0xf3, 0xa9, 0xb5, 0x24, 0xaf, 0x60, 0x12,
        0x06, 0x2f, 0xe0, 0x37, 0xa6,
    ];
    let base = import_key(KeyFormat::Raw, KeyData::Bytes(b"password".to_vec()), ImportAlgorithm::Pbkdf2, false, vec![KeyUsage::DeriveBits]).unwrap();
    let alg = DeriveBitsAlgorithm::Pbkdf2 { hash: Algo::Sha1, salt: b"salt".to_vec(), iterations: 1 };
    assert_eq!(derive_bits(&alg, &base, Some(Some(20 * 8))).unwrap(), expected);
}

#[test]
fn pbkdf2_derive_bits_rejects_a_length_that_is_not_a_multiple_of_eight() {
    let base = import_key(KeyFormat::Raw, KeyData::Bytes(vec![0; 8]), ImportAlgorithm::Pbkdf2, false, vec![KeyUsage::DeriveBits]).unwrap();
    let alg = DeriveBitsAlgorithm::Pbkdf2 { hash: Algo::Sha256, salt: vec![0; 8], iterations: 1000 };
    let err = derive_bits(&alg, &base, Some(Some(4))).unwrap_err();
    assert_eq!(err.name(), ErrorName::OperationError);
    let zero = DeriveBitsAlgorithm::Pbkdf2 { hash: Algo::Sha256, salt: vec![0; 8], iterations: 0 };
    assert_eq!(derive_bits(&zero, &base, Some(Some(8))), Err(CryptoError::ZeroIterations));
}

#[test]
fn aes_key_lengths_are_checked_on_generate_and_import() {
    assert_eq!(
        generate_key(KeyGenAlgorithm::Aes { variant: AesVariant::Cbc, length: 100 }, true, vec![]).err(),
        Some(CryptoError::InvalidAesLength(100))
    );
    let err = import_key(KeyFormat::Raw, KeyData::Bytes(vec![0; 10]), ImportAlgorithm::Aes(AesVariant::Cbc), true, vec![])
        .err()
        .unwrap();
    assert_eq!(err, CryptoError::InvalidAesKeyData(10));
    assert_eq!(err.name(), ErrorName::DataError);
    assert_eq!(
        import_key(KeyFormat::Pkcs8, KeyData::Bytes(vec![0; 16]), ImportAlgorithm::Aes(AesVariant::Cbc), true, vec![]).err(),
        Some(CryptoError::UnsupportedFormat(KeyFormat::Pkcs8))
    );
}

#[test]
fn invalid_usage_for_a_key_pair_is_a_syntax_error() {
    let err = generate_key(
        KeyGenAlgorithm::Ec { variant: EcVariant::Ecdh, named_curve: EcCurve::P256 },
        true,
        vec![KeyUsage::DeriveBits, KeyUsage::Sign],
    )
    .err()
    .unwrap();
    assert_eq!(err, CryptoError::InvalidUsage(KeyUsage::Sign));
    assert_eq!(err.name(), ErrorName::SyntaxError);
}

#[test]
fn usage_and_format_strings_parse_exactly() {
    assert_eq!(KeyUsage::parse("deriveBits"), Some(KeyUsage::DeriveBits));
    assert_eq!(KeyUsage::parse("DeriveBits"), None);
    assert_eq!(KeyFormat::parse("jwk"), Some(KeyFormat::Jwk));
    assert_eq!(KeyFormat::parse("JWK"), None);
    assert_eq!(AesVariant::from_name("aes-gcm"), Some(AesVariant::Gcm));
    assert_eq!(RsaVariant::from_name("rsa-oaep"), Some(RsaVariant::Oaep));
    assert_eq!(EcVariant::from_name("ecdh"), Some(EcVariant::Ecdh));
    assert_eq!(EcCurve::from_name("p-256"), None);
    assert_eq!(EcCurve::from_name("P-521"), Some(EcCurve::P521));
}

#[test]
fn jwk_alg_tags_follow_the_algorithm() {
    assert_eq!(KeyAlgorithm::Aes { name: AesVariant::Ctr, length: 192 }.jwk_alg_tag().as_deref(), Some("A192CTR"));
    assert_eq!(KeyAlgorithm::Aes { name: AesVariant::Cbc, length: 64 }.jwk_alg_tag().as_deref(), Some("A???CBC"));
    assert_eq!(KeyAlgorithm::Hmac { hash: Algo::Sha384, length: 1024 }.jwk_alg_tag().as_deref(), Some("HS384"));
    assert_eq!(
        KeyAlgorithm::RsaHashed { variant: RsaVariant::Oaep, modulus_length: 2048, public_exponent: vec![1, 0, 1], hash: Algo::Sha1 }
            .jwk_alg_tag()
            .as_deref(),
        Some("RSA-OAEP")
    );
    assert_eq!(KeyAlgorithm::Ec { variant: EcVariant::Ecdsa, named_curve: EcCurve::P256 }.jwk_alg_tag(), None);
}

#[test]
fn aes_import_refuses_every_size_but_16_24_32_bytes() {
    // 8208 bytes is 65664 bits, which wraps to 128 in 16 bits: still refused.
    let err = import_key(KeyFormat::Raw, KeyData::Bytes(vec![0; 8208]), ImportAlgorithm::Aes(AesVariant::Gcm), true, vec![])
        .err()
        .unwrap();
    assert_eq!(err, CryptoError::InvalidAesKeyData(8208));
    assert_eq!(err.name(), ErrorName::DataError);
    for n in [16usize, 24, 32] {
        let k = import_key(KeyFormat::Raw, KeyData::Bytes(vec![1; n]), ImportAlgorithm::Aes(AesVariant::Gcm), true, vec![])
            .unwrap();
        match k.algorithm() {
            KeyAlgorithm::Aes { name, length } => assert_eq!((*name, *length), (AesVariant::Gcm, (n * 8) as u16)),
            _ => panic!("expected an AES key"),
        }
    }
}

#[test]
fn import_errors_carry_their_webcrypto_names() {
    let hkdf = import_key(KeyFormat::Raw, KeyData::Bytes(vec![0; 16]), ImportAlgorithm::Hkdf, true, vec![KeyUsage::DeriveBits]);
    assert_eq!(hkdf.err().unwrap().name(), ErrorName::SyntaxError);
    let hmac = import_key(KeyFormat::Pkcs8, KeyData::Bytes(vec![0; 16]), ImportAlgorithm::Hmac { hash: Algo::Sha256 }, true, vec![]);
    assert_eq!(hmac.err().unwrap().name(), ErrorName::NotSupportedError);
    let rsa_raw = import_key(
        KeyFormat::Raw,
        KeyData::Bytes(vec![0; 16]),
        ImportAlgorithm::RsaHashed { variant: RsaVariant::Pkcs1v15, hash: Algo::Sha256 },
        true,
        vec![],
    );
    assert_eq!(rsa_raw.err().unwrap().name(), ErrorName::NotSupportedError);
    let rsa_bad = import_key(
        KeyFormat::Spki,
        KeyData::Bytes(vec![1, 2, 3]),
        ImportAlgorithm::RsaHashed { variant: RsaVariant::Pkcs1v15, hash: Algo::Sha256 },
        true,
        vec![],
    );
    assert_eq!(rsa_bad.err().unwrap().name(), ErrorName::DataError);
    let ec_bad = import_key(
        KeyFormat::Raw,
        KeyData::Bytes(vec![4, 1, 2]),
        ImportAlgorithm::Ec { variant: EcVariant::Ecdsa, named_curve: EcCurve::P256 },
        true,
        vec![],
    );
    assert_eq!(ec_bad.err().unwrap().name(), ErrorName::DataError);
}

#[test]
fn rsa_generation_follows_the_exponent() {
    let g = generate_key(
        KeyGenAlgorithm::RsaHashed { variant: RsaVariant::Pkcs1v15, modulus_length: 512, public_exponent: vec![1], hash: Algo::Sha256 },
        true,
        vec![KeyUsage::Sign],
    );
    assert_eq!(g.err().unwrap(), CryptoError::Rsa(klaver_wintertc::crypto::rsa::RsaError::InvalidKey));
    let (public, private) = pair(
        generate_key(
            KeyGenAlgorithm::RsaHashed {
                variant: RsaVariant::Pkcs1v15,
                modulus_length: 1024,
                public_exponent: vec![1, 0, 1],
                hash: Algo::Sha256,
            },
            true,
            vec![KeyUsage::Sign, KeyUsage::Verify],
        )
        .unwrap(),
    );
    assert_eq!(private.usages(), &vec![KeyUsage::Sign]);
    assert_eq!(public.usages(), &vec![KeyUsage::Verify]);
}

#[test]
fn jwk_export_of_a_secret_key_writes_unpadded_base64url() {
    let k = import_key(KeyFormat::Raw, KeyData::Bytes(vec![0xfb; 16]), ImportAlgorithm::Aes(AesVariant::Gcm), true, vec![]).unwrap();
    match export_key(KeyFormat::Jwk, &k).unwrap() {
        ExportedKey::Jwk(j) => {
            assert_eq!(j.k.as_deref(), Some("-_v7-_v7-_v7-_v7-_v7-w"));
            assert_eq!(j.ext, Some(true));
        }
        ExportedKey::Bytes(_) => panic!("expected a JWK"),
    }
}
