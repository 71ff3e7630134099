use klaver_wintertc::crypto::digest::Algo;
use klaver_wintertc::crypto::kdf::{hkdf_derive_bits, pbkdf2_derive_bits, KdfError};

/// RFC 5869 Appendix A.1 (HKDF-SHA-256) test vector.
#[test]
fn matches_rfc5869_test_case_1() {
    let ikm = [0x0bu8; 22];
    let salt: [u8; 13] = [
        0x00, 0x01, 0x02, 0x03, 0x04, 0x05, 0x06, 0x07, 0x08, 0x09, 0x0a, 0x0b, 0x0c,
    ];
    let info: [u8; 10] = [0xf0, 0xf1, 0xf2, 0xf3, 0xf4, 0xf5, 0xf6, 0xf7, 0xf8, 0xf9];
    let expected: [u8; 42] = [
        0x3c, 0xb2, 0x5f, 0x25, 0xfa, 0xac, 0xd5, 0x7a, 0x90, 0x43, 0x4f, 0x64, 0xd0, 0x36,
        0x2f, 0x2a, 0x2d, 0x2d, 0x0a, 0x90, 0xcf, 0x1a, 0x5a, 0x4c, 0x5d, 0xb0, 0x2d, 0x56,
        0xec, 0xc4, 0xc5, 0xbf, 0x34, 0x00, 0x72, 0x08, 0xd5, 0xb8, 0x87, 0x18, 0x58, 0x65,
    ];
    let okm = hkdf_derive_bits(Algo::Sha256, &salt, &ikm, &info, 42).unwrap();
    assert_eq!(okm, expected);
}

#[test]
fn pbkdf2_matches_rfc6070_test_case_1() {
    let expected = [
        0x0c, 0x60, 0xc8, 0x0f, 0x96, 0x1f, 0x0e, 0x71, 0xf3, 0xa9, 0xb5, 0x24, 0xaf, 0x60,
        0x12, 0x06, 0x2f, 0xe0, 0x37, 0xa6,
    ];
    let out = pbkdf2_derive_bits(Algo::Sha1, b"password", b"salt", 1, 20);
    assert_eq!(out, expected);
}

#[test]
fn hkdf_output_length_matches_request() {
    let out = hkdf_derive_bits(Algo::Sha256, b"salt", b"ikm", b"info", 64).unwrap();
    assert_eq!(out.len(), 64);
}

#[test]
fn hkdf_rejects_more_than_255_blocks() {
    assert_eq!(
        hkdf_derive_bits(Algo::Sha256, b"s", b"k", b"i", 255 * 32 + 1),
        Err(KdfError::InvalidLength)
    );
    assert_eq!(
        hkdf_derive_bits(Algo::Sha1, b"s", b"k", b"i", 255 * 20 + 1),
        Err(KdfError::InvalidLength)
    );
    assert_eq!(hkdf_derive_bits(Algo::Sha1, b"s", b"k", b"i", 255 * 20).unwrap().len(), 255 * 20);
    assert_eq!(hkdf_derive_bits(Algo::Sha512, b"s", b"k", b"i", 0).unwrap().len(), 0);
}

#[test]
fn shorter_derivations_are_prefixes_of_longer_ones() {
    let long = hkdf_derive_bits(Algo::Sha384, b"salt", b"ikm", b"info", 100).unwrap();
    let short = hkdf_derive_bits(Algo::Sha384, b"salt", b"ikm", b"info", 33).unwrap();
    assert_eq!(&long[..33], &short[..]);
    let long = pbkdf2_derive_bits(Algo::Sha256, b"pw", b"salt", 3, 70);
    let short = pbkdf2_derive_bits(Algo::Sha256, b"pw", b"salt", 3, 40);
    assert_eq!(&long[..40], &short[..]);
}
