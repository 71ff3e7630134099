use klaver_wintertc::crypto::algorithm::AlgorithmName;
use klaver_wintertc::crypto::key::{AesVariant, EcVariant, RsaVariant};
use klaver_wintertc::crypto::random::{random_uuid, random_values, uuid_from_bytes, RandomError};

#[test]
fn random_values_fills_up_to_the_quota() {
    assert_eq!(random_values(0).unwrap().len(), 0);
    assert_eq!(random_values(65536).unwrap().len(), 65536);
    assert_eq!(random_values(65537).err(), Some(RandomError::QuotaExceeded));
}

#[test]
fn random_uuid_is_a_version_4_uuid() {
    let u = random_uuid();
    let cs: Vec<char> = u.chars().collect();
    assert_eq!(cs.len(), 36);
    for i in [8, 13, 18, 23] {
        assert_eq!(cs[i], '-');
    }
    assert_eq!(cs[14], '4');
    assert!(matches!(cs[19], '8' | '9' | 'a' | 'b'));
    assert!(u.chars().all(|c| c == '-' || c.is_ascii_hexdigit() && !c.is_ascii_uppercase()));
}

#[test]
fn uuid_from_fixed_bytes() {
    let bytes: Vec<u8> = (0u8..16).collect();
    assert_eq!(uuid_from_bytes(&bytes), "00010203-0405-4607-8809-0a0b0c0d0e0f");
}

#[test]
fn algorithm_names_are_recognised_ignoring_case() {
    assert_eq!(AlgorithmName::classify("hmac"), Some(AlgorithmName::Hmac));
    assert_eq!(AlgorithmName::classify("Pbkdf2"), Some(AlgorithmName::Pbkdf2));
    assert_eq!(AlgorithmName::classify("hkdf"), Some(AlgorithmName::Hkdf));
    assert_eq!(AlgorithmName::classify("aes-gcm"), Some(AlgorithmName::Aes(AesVariant::Gcm)));
    assert_eq!(AlgorithmName::classify("RSA-OAEP"), Some(AlgorithmName::Rsa(RsaVariant::Oaep)));
    assert_eq!(AlgorithmName::classify("ecdh"), Some(AlgorithmName::Ec(EcVariant::Ecdh)));
    assert_eq!(AlgorithmName::classify("SHA-256"), None);
}
