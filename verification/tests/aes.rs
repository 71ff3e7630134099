use aes::cipher::generic_array::GenericArray;
use aes::cipher::{BlockEncrypt, KeyInit};
use aes::Aes128;
use klaver_wintertc::crypto::aes::{
    cbc_decrypt, cbc_encrypt, ctr_encrypt_decrypt, gcm_decrypt, gcm_encrypt, CipherError,
};

fn keystream_block(key: &[u8], block: [u8; 16]) -> [u8; 16] {
    let cipher = Aes128::new_from_slice(key).unwrap();
    let mut arr = GenericArray::from(block);
    cipher.encrypt_block(&mut arr);
    arr.into()
}

#[test]
fn ctr_low_bits_wrap_at_2_pow_length_without_carrying_into_prefix() {
    let key = [0x2bu8; 16];
    let mut counter = [0x11u8; 16]; // arbitrary non-zero fixed prefix throughout.
    counter[15] = 0xff; // low byte (length_bits == 8) is about to wrap on the next block.
    let data = vec![0x41u8; 32]; // 2 blocks.

    let out = ctr_encrypt_decrypt(&key, &counter, 8, &data).unwrap();

    // Block 0: counter unchanged (low byte still 0xff).
    let ks0 = keystream_block(&key, counter);
    let expected0: Vec<u8> = ks0.iter().zip(&data[0..16]).map(|(k, d)| k ^ d).collect();
    assert_eq!(&out[0..16], &expected0[..]);

    // Block 1: low byte wraps 0xff -> 0x00; the rest of the block (the fixed prefix) must
    // stay exactly as in the original `counter`, not carry into byte 14.
    let mut wrapped = counter;
    wrapped[15] = 0x00;
    let ks1 = keystream_block(&key, wrapped);
    let expected1: Vec<u8> = ks1.iter().zip(&data[16..32]).map(|(k, d)| k ^ d).collect();
    assert_eq!(&out[16..32], &expected1[..]);
}

#[test]
fn ctr_round_trips() {
    let key = [0x11u8; 32];
    let counter = [0x00u8; 16];
    let data = b"the quick brown fox jumps over the lazy dog!!!!".to_vec();

    let ciphertext = ctr_encrypt_decrypt(&key, &counter, 64, &data).unwrap();
    assert_ne!(ciphertext, data);
    let plaintext = ctr_encrypt_decrypt(&key, &counter, 64, &ciphertext).unwrap();
    assert_eq!(plaintext, data);
}

#[test]
fn ctr_preserves_fixed_prefix_bits() {
    // A non-trivial prefix (top 8 bytes all 0xAA) must never change across blocks even
    // though the low 64 bits wrap.
    let key = [0x99u8; 16];
    let mut counter = [0u8; 16];
    counter[..8].copy_from_slice(&[0xAA; 8]);
    let data = vec![0u8; 64]; // 4 blocks - encrypting zeros exposes the raw keystream.

    let keystream = ctr_encrypt_decrypt(&key, &counter, 64, &data).unwrap();

    for block_index in 0..4u128 {
        let mut block = counter;
        let low = block_index.to_be_bytes();
        block[8..].copy_from_slice(&low[8..]);
        let arr = keystream_block(&key, block);
        assert_eq!(&keystream[block_index as usize * 16..][..16], &arr[..]);
    }
}

#[test]
fn gcm_round_trips_and_detects_tampering() {
    let key = [0x42u8; 16];
    let iv = [0x24u8; 12];
    let aad = b"header";
    let plaintext = b"hello world! this is my plaintext.";

    let ciphertext = gcm_encrypt(&key, &iv, Some(aad), 128, plaintext).unwrap();
    let recovered = gcm_decrypt(&key, &iv, Some(aad), 128, &ciphertext).unwrap();
    assert_eq!(recovered, plaintext);

    // Wrong AAD.
    assert_eq!(
        gcm_decrypt(&key, &iv, Some(b"tampered"), 128, &ciphertext),
        Err(CipherError::AuthenticationFailed)
    );

    // Tampered ciphertext.
    let mut tampered = ciphertext.clone();
    tampered[0] ^= 1;
    assert_eq!(
        gcm_decrypt(&key, &iv, Some(aad), 128, &tampered),
        Err(CipherError::AuthenticationFailed)
    );

    // Wrong key.
    let wrong_key = [0x43u8; 16];
    assert_eq!(
        gcm_decrypt(&wrong_key, &iv, Some(aad), 128, &ciphertext),
        Err(CipherError::AuthenticationFailed)
    );
}

#[test]
fn cbc_round_trips_non_block_aligned_plaintext() {
    let key = [0x42u8; 32];
    let iv = [0x24u8; 16];
    let plaintext = b"hello world! this is my plaintext.";

    let ciphertext = cbc_encrypt(&key, &iv, plaintext).unwrap();
    assert_eq!(ciphertext.len() % 16, 0);
    let recovered = cbc_decrypt(&key, &iv, &ciphertext).unwrap();
    assert_eq!(recovered, plaintext);
}

#[test]
fn cbc_rejects_invalid_padding() {
    let key = [0x42u8; 16];
    let iv = [0x24u8; 16];
    let ciphertext = cbc_encrypt(&key, &iv, b"0123456789abcdef").unwrap();

    let mut tampered = ciphertext.clone();
    let last = tampered.len() - 1;
    tampered[last] ^= 1;

    assert_eq!(
        cbc_decrypt(&key, &iv, &tampered),
        Err(CipherError::InvalidPadding)
    );
}

#[test]
fn aes_key_and_iv_lengths_are_checked() {
    let key = [0u8; 16];
    assert_eq!(
        ctr_encrypt_decrypt(&[0u8; 15], &[0u8; 16], 64, b"x"),
        Err(CipherError::WrongKeyLength)
    );
    assert_eq!(cbc_encrypt(&key, &[0u8; 12], b"x"), Err(CipherError::WrongIvLength));
    assert_eq!(cbc_encrypt(&[0u8; 20], &[0u8; 16], b"x"), Err(CipherError::WrongKeyLength));
    assert_eq!(cbc_decrypt(&key, &[0u8; 15], b"x"), Err(CipherError::WrongIvLength));
    assert_eq!(
        gcm_encrypt(&key, &[0u8; 12], None, 96, b"x"),
        Err(CipherError::UnsupportedTagLength)
    );
    assert_eq!(gcm_encrypt(&key, &[0u8; 16], None, 128, b"x"), Err(CipherError::WrongIvLength));
    assert_eq!(
        gcm_decrypt(&[0u8; 8], &[0u8; 12], None, 128, b"x"),
        Err(CipherError::WrongKeyLength)
    );
}

#[test]
fn gcm_output_is_plaintext_plus_tag_and_aes192_round_trips() {
    let key = [7u8; 24];
    let iv = [1u8; 12];
    let ct = gcm_encrypt(&key, &iv, None, 128, b"abc").unwrap();
    assert_eq!(ct.len(), 3 + 16);
    assert_eq!(gcm_decrypt(&key, &iv, None, 128, &ct).unwrap(), b"abc");
    let cbc = cbc_encrypt(&key, &[2u8; 16], b"0123456789abcdef").unwrap();
    assert_eq!(cbc.len(), 32);
    assert_eq!(cbc_decrypt(&key, &[2u8; 16], &cbc).unwrap(), b"0123456789abcdef");
}

#[test]
fn ctr_with_full_128_bit_counter_wraps_the_whole_block() {
    let key = [3u8; 16];
    let counter = [0xffu8; 16];
    let data = vec![0u8; 32];
    let ks = ctr_encrypt_decrypt(&key, &counter, 128, &data).unwrap();
    assert_eq!(&ks[16..32], &keystream_block(&key, [0u8; 16])[..]);
}

#[test]
fn cbc_decrypt_refuses_empty_and_partial_block_ciphertexts() {
    let key = [7u8; 16];
    let iv = [9u8; 16];
    assert_eq!(cbc_decrypt(&key, &iv, &[]), Err(CipherError::InvalidPadding));
    assert_eq!(cbc_decrypt(&key, &iv, &[0u8; 15]), Err(CipherError::InvalidPadding));
    assert_eq!(cbc_decrypt(&key, &iv, &[0u8; 17]), Err(CipherError::InvalidPadding));
}
