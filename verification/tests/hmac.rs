use klaver_wintertc::crypto::digest::{hash_bytes, Algo};
use klaver_wintertc::crypto::hmac::{default_key_length_bits, sign, verify};

/// RFC 4231 test case 1 (HMAC-SHA-256).
#[test]
fn matches_rfc4231_test_case_1_hmac_sha256() {
    let key = [0x0bu8; 20];
    let data = b"Hi There";
    let expected = [
        0xb0, 0x34, 0x4c, 0x61, 0xd8, 0xdb, 0x38, 0x53, 0x5c, 0xa8, 0xaf, 0xce, 0xaf, 0x0b,
        0xf1, 0x2b, 0x88, 0x1d, 0xc2, 0x00, 0xc9, 0x83, 0x3d, 0xa7, 0x26, 0xe9, 0x37, 0x6c,
        0x2e, 0x32, 0xcf, 0xf7,
    ];
    assert_eq!(sign(Algo::Sha256, &key, data), expected);
    assert!(verify(Algo::Sha256, &key, data, &expected));
}

#[test]
fn verify_returns_false_rather_than_erroring_on_mismatch() {
    let key = b"key";
    let signature = sign(Algo::Sha256, key, b"data");
    assert!(!verify(Algo::Sha256, key, b"different data", &signature));

    let mut tampered = signature.clone();
    tampered[0] ^= 1;
    assert!(!verify(Algo::Sha256, key, b"data", &tampered));

    assert!(!verify(
        Algo::Sha256,
        key,
        b"data",
        &signature[..signature.len() - 1]
    ));
}

#[test]
fn round_trips_for_every_hash() {
    for hash in [Algo::Sha1, Algo::Sha256, Algo::Sha384, Algo::Sha512] {
        let key = b"a reasonably long test key, longer than any block size";
        let signature = sign(hash, key, b"message");
        assert!(verify(hash, key, b"message", &signature));
    }
}

#[test]
fn tag_lengths_follow_the_hash() {
    assert_eq!(sign(Algo::Sha1, b"k", b"d").len(), 20);
    assert_eq!(sign(Algo::Sha256, b"k", b"d").len(), 32);
    assert_eq!(sign(Algo::Sha384, b"k", b"d").len(), 48);
    assert_eq!(sign(Algo::Sha512, b"k", b"d").len(), 64);
}

#[test]
fn default_key_lengths_are_the_block_sizes() {
    assert_eq!(default_key_length_bits(Algo::Sha1), 512);
    assert_eq!(default_key_length_bits(Algo::Sha256), 512);
    assert_eq!(default_key_length_bits(Algo::Sha384), 1024);
    assert_eq!(default_key_length_bits(Algo::Sha512), 1024);
}

#[test]
fn sha256_of_abc() {
    let expected = [
        0xba, 0x78, 0x16, 0xbf, 0x8f, 0x01, 0xcf, 0xea, 0x41, 0x41, 0x40, 0xde, 0x5d, 0xae, 0x22,
        0x23, 0xb0, 0x03, 0x61, 0xa3, 0x96, 0x17, 0x7a, 0x9c, 0xb4, 0x10, 0xff, 0x61, 0xf2, 0x00,
        0x15, 0xad,
    ];
    assert_eq!(hash_bytes(Algo::Sha256, b"abc"), expected);
    assert_eq!(hash_bytes(Algo::Sha1, b"abc").len(), 20);
    assert_eq!(hash_bytes(Algo::Sha384, b"abc").len(), 48);
    assert_eq!(hash_bytes(Algo::Sha512, b"abc").len(), 64);
}

#[test]
fn hash_names_are_case_insensitive() {
    assert_eq!(Algo::from_name("SHA-256"), Some(Algo::Sha256));
    assert_eq!(Algo::from_name("sha-1"), Some(Algo::Sha1));
    assert_eq!(Algo::from_name("Sha-384"), Some(Algo::Sha384));
    assert_eq!(Algo::from_name("sHa-512"), Some(Algo::Sha512));
    assert_eq!(Algo::from_name("SHA256"), None);
    assert_eq!(Algo::from_name("MD5"), None);
    for a in [Algo::Sha1, Algo::Sha256, Algo::Sha384, Algo::Sha512] {
        assert_eq!(Algo::from_name(a.name()), Some(a));
    }
}
