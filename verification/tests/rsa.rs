use klaver_wintertc::crypto::digest::{hash_bytes, Algo};
use klaver_wintertc::crypto::rsa::{
    from_pkcs8_der, from_spki_der, generate_keypair, key_algorithm_params, oaep_decrypt,
    oaep_encrypt, pkcs1v15_sign, pkcs1v15_verify, private_components, pss_sign, pss_verify, private_key_from_components,
    public_components, public_key_from_components, to_pkcs8_der, to_spki_der, RsaError, RsaKeyPair,
};

fn keypair() -> (klaver_wintertc::crypto::rsa::RsaPrivateKey, klaver_wintertc::crypto::rsa::RsaPublicKey) {
    generate_keypair(1024, &[1, 0, 1]).expect("key generation succeeds")
}

#[test]
fn generated_key_reports_its_parameters() {
    let (private, public) = keypair();
    let (bits, e) = key_algorithm_params(&RsaKeyPair::Private(private));
    assert_eq!(bits, 1024);
    assert_eq!(e, vec![1, 0, 1]);
    let (bits, e) = key_algorithm_params(&RsaKeyPair::Public(public));
    assert_eq!(bits, 1024);
    assert_eq!(e, vec![1, 0, 1]);
}

#[test]
fn pkcs1v15_sign_and_verify_round_trips_and_rejects_tampering() {
    let (private, public) = keypair();
    let hashed = hash_bytes(Algo::Sha256, b"message");
    let sig = pkcs1v15_sign(&private, Algo::Sha256, &hashed).unwrap();
    assert_eq!(sig.len(), 128);
    assert!(pkcs1v15_verify(&public, Algo::Sha256, &hashed, &sig));
    let mut tampered = sig.clone();
    tampered[5] ^= 1;
    assert!(!pkcs1v15_verify(&public, Algo::Sha256, &hashed, &tampered));
    let other = hash_bytes(Algo::Sha256, b"other");
    assert!(!pkcs1v15_verify(&public, Algo::Sha256, &other, &sig));
    // Deterministic: signing again gives the same signature.
    assert_eq!(pkcs1v15_sign(&private, Algo::Sha256, &hashed).unwrap(), sig);
    // SHA-1 works for PKCS#1 v1.5 too.
    let h1 = hash_bytes(Algo::Sha1, b"message");
    let s1 = pkcs1v15_sign(&private, Algo::Sha1, &h1).unwrap();
    assert!(pkcs1v15_verify(&public, Algo::Sha1, &h1, &s1));
}

#[test]
fn oaep_round_trips_and_refuses_sha1() {
    let (private, public) = keypair();
    let ct = oaep_encrypt(&public, Algo::Sha256, None, b"secret").unwrap();
    assert_eq!(ct.len(), 128);
    assert_eq!(oaep_decrypt(&private, Algo::Sha256, None, &ct).unwrap(), b"secret");
    // An absent label and an empty label are the same label.
    assert_eq!(oaep_decrypt(&private, Algo::Sha256, Some(&[]), &ct).unwrap(), b"secret");
    let labeled = oaep_encrypt(&public, Algo::Sha384, Some(b"ctx"), b"x").unwrap();
    assert_eq!(oaep_decrypt(&private, Algo::Sha384, Some(b"ctx"), &labeled).unwrap(), b"x");
    assert_eq!(
        oaep_decrypt(&private, Algo::Sha384, Some(b"other"), &labeled),
        Err(RsaError::OperationFailed)
    );
    assert_eq!(oaep_encrypt(&public, Algo::Sha1, None, b"x"), Err(RsaError::UnsupportedHash));
    assert_eq!(oaep_decrypt(&private, Algo::Sha1, None, &ct), Err(RsaError::UnsupportedHash));
    // 128 - 2*64 - 2 < 0: nothing fits under SHA-512 with a 1024-bit modulus.
    assert_eq!(oaep_encrypt(&public, Algo::Sha512, None, b"x"), Err(RsaError::OperationFailed));
}

#[test]
fn pkcs8_and_spki_round_trip() {
    let (private, public) = keypair();
    let der = to_pkcs8_der(&private).unwrap();
    let back = from_pkcs8_der(&der).unwrap();
    assert_eq!(to_pkcs8_der(&back).unwrap(), der);
    let spki = to_spki_der(&public).unwrap();
    let back = from_spki_der(&spki).unwrap();
    assert_eq!(to_spki_der(&back).unwrap(), spki);
    assert_eq!(from_pkcs8_der(b"not der").err(), Some(RsaError::InvalidKey));
    assert_eq!(from_spki_der(b"not der").err(), Some(RsaError::InvalidKey));
}

#[test]
fn components_round_trip() {
    let (private, public) = keypair();
    let c = private_components(&private).unwrap();
    assert!(c.dp.is_some() && c.dq.is_some() && c.qi.is_some());
    let rebuilt = private_key_from_components(
        &c.n,
        &c.e,
        c.d.as_ref().unwrap(),
        c.p.as_ref().unwrap(),
        c.q.as_ref().unwrap(),
    )
    .unwrap();
    assert_eq!(to_pkcs8_der(&rebuilt).unwrap(), to_pkcs8_der(&private).unwrap());
    let pc = public_components(&public);
    assert_eq!(pc.n, c.n);
    assert_eq!(pc.e, vec![1, 0, 1]);
    assert!(pc.d.is_none() && pc.p.is_none() && pc.qi.is_none());
    let rebuilt_public = public_key_from_components(&pc.n, &pc.e).unwrap();
    assert_eq!(to_spki_der(&rebuilt_public).unwrap(), to_spki_der(&public).unwrap());
    assert_eq!(public_key_from_components(&pc.n, &[2]).err(), Some(RsaError::InvalidKey));
    assert_eq!(
        private_key_from_components(&c.n, &c.e, &[1, 2, 3], &[5], &[7]).err(),
        Some(RsaError::InvalidKey)
    );
}

#[test]
fn public_key_of_a_private_key_matches_the_generated_public_key() {
    let (private, public) = keypair();
    let derived = RsaKeyPair::Private(private).public_key();
    assert_eq!(to_spki_der(&derived).unwrap(), to_spki_der(&public).unwrap());
}

#[test]
fn generation_returns_the_exponent_without_leading_zeros_and_refuses_out_of_range_ones() {
    let (private, _) = generate_keypair(512, &[0, 0, 1, 0, 1]).unwrap();
    let (bits, e) = key_algorithm_params(&RsaKeyPair::Private(private));
    assert_eq!(bits, 512);
    assert_eq!(e, vec![1, 0, 1]);
    assert_eq!(generate_keypair(512, &[1]).err(), Some(RsaError::InvalidKey));
    assert_eq!(generate_keypair(512, &[2, 0, 0, 0, 1]).err(), Some(RsaError::InvalidKey));
}

#[test]
fn private_components_give_the_crt_values() {
    let (private, _) = keypair();
    let c = private_components(&private).unwrap();
    assert!(c.d.is_some() && c.p.is_some() && c.q.is_some());
    assert!(c.dp.is_some() && c.dq.is_some() && c.qi.is_some());
}

#[test]
fn small_moduli_are_refused_below_twelve_bits_and_generated_from_there() {
    assert_eq!(generate_keypair(11, &[1, 0, 1]).err(), Some(RsaError::InvalidKey));
    assert_eq!(generate_keypair(0, &[3]).err(), Some(RsaError::InvalidKey));
    let (private, public) = generate_keypair(32, &[1, 0, 1]).expect("a 32-bit key");
    let (bits, e) = key_algorithm_params(&RsaKeyPair::Private(private));
    assert_eq!(bits, 32);
    assert_eq!(e, vec![1, 0, 1]);
    assert_eq!(key_algorithm_params(&RsaKeyPair::Public(public)), (32, vec![1, 0, 1]));
    // An exponent longer than the modulus is never below it.
    assert_eq!(generate_keypair(16, &[1, 0, 1]).err(), Some(RsaError::InvalidKey));
}

#[test]
fn pss_signatures_verify_and_a_salt_too_long_for_the_modulus_is_refused() {
    let (private, public) = keypair();
    let hashed = hash_bytes(Algo::Sha256, b"pss message");
    let sig = pss_sign(&private, Algo::Sha256, 32, &hashed).unwrap();
    assert_eq!(sig.len(), 128);
    assert!(pss_verify(&public, Algo::Sha256, 32, &hashed, &sig));
    assert!(!pss_verify(&public, Algo::Sha384, 32, &hashed, &sig));
    // 128-byte encoded message: 32 + 95 + 2 > 128.
    assert_eq!(pss_sign(&private, Algo::Sha256, 95, &hashed).err(), Some(RsaError::OperationFailed));
    assert!(pss_sign(&private, Algo::Sha256, 94, &hashed).is_ok());
    // A digest of the wrong length.
    assert_eq!(pss_sign(&private, Algo::Sha256, 32, &hashed[..31]).err(), Some(RsaError::OperationFailed));
}

#[test]
fn oaep_ciphertexts_decrypt_and_the_longest_message_fits() {
    let (private, public) = keypair();
    // A 1024-bit modulus leaves no room for a message under SHA-512: 2 * 64 + 2 > 128.
    assert_eq!(oaep_encrypt(&public, Algo::Sha512, None, &[]).err(), Some(RsaError::OperationFailed));
    for (hash, h) in [(Algo::Sha256, 32usize), (Algo::Sha384, 48)] {
        let longest = vec![7u8; 128 - 2 * h - 2];
        let ct = oaep_encrypt(&public, hash, Some(b"label"), &longest).unwrap();
        assert_eq!(ct.len(), 128);
        assert_eq!(oaep_decrypt(&private, hash, Some(b"label"), &ct).unwrap(), longest);
        let too_long = vec![7u8; 128 - 2 * h - 1];
        assert_eq!(oaep_encrypt(&public, hash, None, &too_long).err(), Some(RsaError::OperationFailed));
    }
}

#[test]
fn pkcs1v15_signature_verifies_for_its_digest_only() {
    let (private, public) = keypair();
    let hashed = hash_bytes(Algo::Sha256, b"one");
    let other = hash_bytes(Algo::Sha256, b"two");
    let sig = pkcs1v15_sign(&private, Algo::Sha256, &hashed).unwrap();
    assert!(pkcs1v15_verify(&public, Algo::Sha256, &hashed, &sig));
    assert!(!pkcs1v15_verify(&public, Algo::Sha256, &other, &sig));
}

#[test]
fn der_encodings_give_the_generated_key_back_exactly() {
    let (private, public) = keypair();
    let back = from_pkcs8_der(&to_pkcs8_der(&private).unwrap()).unwrap();
    let c1 = private_components(&private).unwrap();
    let c2 = private_components(&back).unwrap();
    assert_eq!((c1.n, c1.e, c1.d, c1.p, c1.q), (c2.n, c2.e, c2.d, c2.p, c2.q));
    let pback = from_spki_der(&to_spki_der(&public).unwrap()).unwrap();
    let p1 = public_components(&public);
    let p2 = public_components(&pback);
    assert_eq!((&p1.n, &p1.e), (&p2.n, &p2.e));
    // The public check refuses an exponent of 1.
    let weak = public_key_from_components(&p1.n, &[1]);
    assert_eq!(weak.err(), Some(RsaError::InvalidKey));
}
