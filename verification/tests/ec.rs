use klaver_wintertc::crypto::digest::{hash_bytes, Algo};
use klaver_wintertc::crypto::ec::{
    components, ecdh_derive_bits, ecdsa_sign, ecdsa_verify, from_pkcs8_der, from_spki_der,
    generate_keypair, private_key_from_components, public_key_from_components, public_key_from_raw,
    public_key_to_raw, to_pkcs8_der, to_spki_der, EcCurve, EcError,
};

#[test]
fn ecdsa_round_trips_on_every_curve() {
    for (curve, coord, sig_len) in [(EcCurve::P256, 32, 64), (EcCurve::P384, 48, 96), (EcCurve::P521, 66, 132)] {
        let (private, public) = generate_keypair(curve);
        let prehash = hash_bytes(Algo::Sha512, b"message");
        let sig = ecdsa_sign(&private, &prehash).unwrap();
        assert_eq!(sig.len(), sig_len);
        assert!(ecdsa_verify(&public, &prehash, &sig));
        let mut tampered = sig.clone();
        tampered[3] ^= 1;
        assert!(!ecdsa_verify(&public, &prehash, &tampered));
        assert!(!ecdsa_verify(&private, &prehash, &sig));
        assert_eq!(ecdsa_sign(&public, &prehash), Err(EcError::InvalidKey));
        let raw = public_key_to_raw(&public).unwrap();
        assert_eq!(raw.len(), 1 + 2 * coord);
        assert_eq!(raw[0], 4);
        assert_eq!(public_key_to_raw(&private), Err(EcError::InvalidKey));
    }
}

#[test]
fn ecdh_agrees_on_both_sides_and_rejects_mismatched_curves() {
    let (a_priv, a_pub) = generate_keypair(EcCurve::P256);
    let (b_priv, b_pub) = generate_keypair(EcCurve::P256);
    let ab = ecdh_derive_bits(&a_priv, &b_pub).unwrap();
    let ba = ecdh_derive_bits(&b_priv, &a_pub).unwrap();
    assert_eq!(ab, ba);
    assert_eq!(ab.len(), 32);
    let (_, c_pub) = generate_keypair(EcCurve::P384);
    assert_eq!(ecdh_derive_bits(&a_priv, &c_pub), Err(EcError::InvalidKey));
    assert_eq!(ecdh_derive_bits(&a_pub, &b_pub), Err(EcError::InvalidKey));
}

#[test]
fn der_and_raw_and_components_round_trip() {
    let (private, public) = generate_keypair(EcCurve::P384);
    let der = to_pkcs8_der(&private).unwrap();
    let back = from_pkcs8_der(EcCurve::P384, &der).unwrap();
    assert_eq!(to_pkcs8_der(&back).unwrap(), der);
    let spki = to_spki_der(&public).unwrap();
    let back_pub = from_spki_der(EcCurve::P384, &spki).unwrap();
    assert_eq!(to_spki_der(&back_pub).unwrap(), spki);
    assert_eq!(to_spki_der(&private), Err(EcError::InvalidKey));
    assert_eq!(to_pkcs8_der(&public), Err(EcError::InvalidKey));
    assert!(from_pkcs8_der(EcCurve::P256, &der).is_err());

    let raw = public_key_to_raw(&public).unwrap();
    let from_raw = public_key_from_raw(EcCurve::P384, &raw).unwrap();
    assert_eq!(public_key_to_raw(&from_raw).unwrap(), raw);

    let pc = components(&public);
    assert_eq!(pc.x.len(), 48);
    assert_eq!(&raw[1..49], &pc.x[..]);
    assert_eq!(&raw[49..], &pc.y[..]);
    assert!(pc.d.is_none());
    let rebuilt = public_key_from_components(EcCurve::P384, &pc.x, &pc.y).unwrap();
    assert_eq!(public_key_to_raw(&rebuilt).unwrap(), raw);

    let sc = components(&private);
    assert_eq!(sc.x, pc.x);
    assert_eq!(sc.y, pc.y);
    let d = sc.d.unwrap();
    let rebuilt_private = private_key_from_components(EcCurve::P384, &d).unwrap();
    assert_eq!(to_pkcs8_der(&rebuilt_private).unwrap(), der);
    assert_eq!(
        public_key_from_components(EcCurve::P384, &[1, 2], &[3, 4]).err(),
        Some(EcError::InvalidKey)
    );
    assert_eq!(private_key_from_components(EcCurve::P256, &[0u8; 32]).err(), Some(EcError::InvalidKey));
}

#[test]
fn components_are_one_field_element_each() {
    for (curve, n) in [(EcCurve::P256, 32usize), (EcCurve::P384, 48), (EcCurve::P521, 66)] {
        let (private, public) = generate_keypair(curve);
        let c = components(&private);
        assert_eq!(c.x.len(), n);
        assert_eq!(c.y.len(), n);
        assert_eq!(c.d.as_ref().map(|d| d.len()), Some(n));
        let p = components(&public);
        assert_eq!((p.x.len(), p.y.len(), p.d.is_none()), (n, n, true));
    }
}

#[test]
fn p521_signatures_are_randomized_and_each_verifies() {
    let (private, public) = generate_keypair(EcCurve::P521);
    let prehash = hash_bytes(Algo::Sha512, b"p521");
    let a = ecdsa_sign(&private, &prehash).unwrap();
    let b = ecdsa_sign(&private, &prehash).unwrap();
    assert_eq!(a.len(), 132);
    assert_eq!(b.len(), 132);
    assert_ne!(a, b);
    assert!(ecdsa_verify(&public, &prehash, &a));
    assert!(ecdsa_verify(&public, &prehash, &b));
    // P-256 signs deterministically.
    let (p256, _) = generate_keypair(EcCurve::P256);
    let h = hash_bytes(Algo::Sha256, b"p256");
    assert_eq!(ecdsa_sign(&p256, &h).unwrap(), ecdsa_sign(&p256, &h).unwrap());
}

#[test]
fn ecdh_secret_is_one_field_element_and_the_same_from_both_sides() {
    for (curve, n) in [(EcCurve::P256, 32), (EcCurve::P384, 48), (EcCurve::P521, 66)] {
        let (a_priv, a_pub) = generate_keypair(curve);
        let (b_priv, b_pub) = generate_keypair(curve);
        let ab = ecdh_derive_bits(&a_priv, &b_pub).unwrap();
        let ba = ecdh_derive_bits(&b_priv, &a_pub).unwrap();
        assert_eq!(ab.len(), n);
        assert_eq!(ab, ba);
    }
}
