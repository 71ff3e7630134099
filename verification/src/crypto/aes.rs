//! Raw AES-GCM/CBC/CTR encrypt/decrypt over key bytes and parameters. Callers translate
//! [`CipherError`] into the matching named `DOMException`.
use vstd::prelude::*;
use vstd::bytes::{u128_from_le_bytes, u128_to_le_bytes};

use aes::cipher::{BlockDecryptMut, BlockEncrypt, BlockEncryptMut, KeyInit, KeyIvInit};
use aes::cipher::block_padding::Pkcs7;
use aes::cipher::generic_array::GenericArray;
use aes::{Aes128, Aes192, Aes256};
use aes_gcm::aead::{Aead, Payload};
use aes_gcm::{Aes128Gcm, Aes256Gcm, AesGcm};

verus! {

type Aes192Gcm = AesGcm<Aes192, aes::cipher::consts::U12>;

/// Why a cipher operation was refused.
#[derive(Debug, Clone, Copy, PartialEq, Eq, Structural)]
pub enum CipherError {
    /// Key material isn't 16/24/32 bytes (AES-128/192/256).
    WrongKeyLength,
    /// The IV has the wrong length for the mode (12 bytes for GCM, 16 for CBC).
    WrongIvLength,
    /// CTR's `counter` block must be exactly 16 bytes.
    WrongCounterLength,
    /// GCM's `tagLength` must be 128.
    UnsupportedTagLength,
    /// AEAD authentication failed (wrong key, tampered ciphertext/tag/additional data).
    AuthenticationFailed,
    /// CBC padding was invalid on decrypt.
    InvalidPadding,
}

/// `out` holds exactly the bytes `p`.
pub open spec fn is_some_bytes(out: Option<Vec<u8>>, p: Seq<u8>) -> bool {
    out matches Some(v) && v@ == p
}

/// AES accepts 128-, 192- and 256-bit keys.
pub open spec fn valid_aes_key_len(len: nat) -> bool {
    len == 16 || len == 24 || len == 32
}

/// The AES-128 forward permutation of one 16-byte block under a 16-byte key.
pub uninterp spec fn aes128_block(key: Seq<u8>, block: Seq<u8>) -> Seq<u8>;

/// The AES-192 forward permutation of one 16-byte block under a 24-byte key.
pub uninterp spec fn aes192_block(key: Seq<u8>, block: Seq<u8>) -> Seq<u8>;

/// The AES-256 forward permutation of one 16-byte block under a 32-byte key.
pub uninterp spec fn aes256_block(key: Seq<u8>, block: Seq<u8>) -> Seq<u8>;

/// The AES forward permutation selected by the key's length.
pub open spec fn aes_block(key: Seq<u8>, block: Seq<u8>) -> Seq<u8> {
    if key.len() == 16 {
        aes128_block(key, block)
    } else if key.len() == 24 {
        aes192_block(key, block)
    } else {
        aes256_block(key, block)
    }
}

/// `aes::Aes128::encrypt_block`: the contract states that the output is the AES-128 image of
/// the block under the key, and that a block stays 16 bytes long.
#[verifier::external_body]
fn aes128_encrypt_block(key: &[u8], block: &[u8]) -> (out: Vec<u8>)
    requires
        key@.len() == 16,
        block@.len() == 16,
    ensures
        out@ == aes128_block(key@, block@),
        out@.len() == 16,
{
    let mut b = aes::Block::clone_from_slice(block);
    Aes128::new(GenericArray::from_slice(key)).encrypt_block(&mut b);
    b.to_vec()
}

/// `aes::Aes192::encrypt_block`: the contract states that the output is the AES-192 image of
/// the block under the key, and that a block stays 16 bytes long.
#[verifier::external_body]
fn aes192_encrypt_block(key: &[u8], block: &[u8]) -> (out: Vec<u8>)
    requires
        key@.len() == 24,
        block@.len() == 16,
    ensures
        out@ == aes192_block(key@, block@),
        out@.len() == 16,
{
    let mut b = aes::Block::clone_from_slice(block);
    Aes192::new(GenericArray::from_slice(key)).encrypt_block(&mut b);
    b.to_vec()
}

/// `aes::Aes256::encrypt_block`: the contract states that the output is the AES-256 image of
/// the block under the key, and that a block stays 16 bytes long.
#[verifier::external_body]
fn aes256_encrypt_block(key: &[u8], block: &[u8]) -> (out: Vec<u8>)
    requires
        key@.len() == 32,
        block@.len() == 16,
    ensures
        out@ == aes256_block(key@, block@),
        out@.len() == 16,
{
    let mut b = aes::Block::clone_from_slice(block);
    Aes256::new(GenericArray::from_slice(key)).encrypt_block(&mut b);
    b.to_vec()
}

/// Encrypts one block with the AES variant that the key's length selects.
fn encrypt_block(key: &[u8], block: &[u8]) -> (out: Vec<u8>)
    requires
        valid_aes_key_len(key@.len()),
        block@.len() == 16,
    ensures
        out@ == aes_block(key@, block@),
        out@.len() == 16,
{
    if key.len() == 16 {
        aes128_encrypt_block(key, block)
    } else if key.len() == 24 {
        aes192_encrypt_block(key, block)
    } else {
        aes256_encrypt_block(key, block)
    }
}

/// The big-endian value of a 16-byte block.
pub open spec fn be_value(block: Seq<u8>) -> u128 {
    vstd::bytes::spec_u128_from_le_bytes(block.reverse())
}

/// The 16 big-endian bytes of a value.
pub open spec fn be_bytes(x: u128) -> Seq<u8> {
    vstd::bytes::spec_u128_to_le_bytes(x).reverse()
}

/// The bits of the counter block that never change: all but the low `length_bits`.
pub open spec fn ctr_prefix_mask(length_bits: u8) -> u128 {
    if length_bits >= 128 {
        0u128
    } else {
        (!0u128) << length_bits
    }
}

/// The counter block fed to the block cipher for block number `index`: the fixed prefix of
/// `counter` joined with its low `length_bits` bits advanced by `index`, keeping only the low
/// `length_bits` bits of the sum (so the counter wraps at 2^`length_bits`).
pub open spec fn ctr_block(counter: u128, length_bits: u8, index: u128) -> u128 {
    let mask = ctr_prefix_mask(length_bits);
    (counter & mask) | ((counter & !mask).wrapping_add(index) & !mask)
}

/// Keystream byte `j` of AES-CTR under `key`, starting from the 16-byte `counter`.
pub open spec fn ctr_keystream_byte(key: Seq<u8>, counter: Seq<u8>, length_bits: u8, j: int) -> u8 {
    aes_block(key, be_bytes(ctr_block(be_value(counter), length_bits, (j / 16) as u128)))[j % 16]
}

/// AES-CTR output: each data byte XORed with the keystream byte at the same position.
pub open spec fn ctr_output(key: Seq<u8>, counter: Seq<u8>, length_bits: u8, data: Seq<u8>) -> Seq<u8> {
    Seq::new(data.len(), |j: int| data[j] ^ ctr_keystream_byte(key, counter, length_bits, j))
}

/// Law: block 0 of the keystream is fed the initial counter block unchanged.
pub proof fn lemma_ctr_first_block_is_counter(counter: u128, length_bits: u8)
    ensures
        ctr_block(counter, length_bits, 0) == counter,
{
    let m = ctr_prefix_mask(length_bits);
    assert((counter & !m).wrapping_add(0) == counter & !m);
    assert(((counter & m) | ((counter & !m) & !m)) == counter) by (bit_vector);
}

/// Law: the fixed prefix of the counter block (all bits above the low `length_bits`) is the
/// same in every block, however far the low counter bits have advanced or wrapped.
pub proof fn lemma_ctr_block_keeps_prefix(counter: u128, length_bits: u8, index: u128)
    ensures
        ctr_block(counter, length_bits, index) & ctr_prefix_mask(length_bits) == counter
            & ctr_prefix_mask(length_bits),
{
    let m = ctr_prefix_mask(length_bits);
    let w = (counter & !m).wrapping_add(index);
    assert(((counter & m) | (w & !m)) & m == counter & m) by (bit_vector);
}

/// Law: AES-CTR is its own inverse - applying it twice with the same key, counter and counter
/// length gives the original data back.
pub proof fn lemma_ctr_involution(key: Seq<u8>, counter: Seq<u8>, length_bits: u8, data: Seq<u8>)
    ensures
        ctr_output(key, counter, length_bits, ctr_output(key, counter, length_bits, data)) == data,
{
    let once = ctr_output(key, counter, length_bits, data);
    let twice = ctr_output(key, counter, length_bits, once);
    assert forall|j: int| 0 <= j < data.len() implies twice[j] == data[j] by {
        let k = ctr_keystream_byte(key, counter, length_bits, j);
        let d = data[j];
        assert((d ^ k) ^ k == d) by (bit_vector);
    }
    assert(twice =~= data);
}

/// Big-endian value of a 16-byte block.
fn be_to_u128(block: &[u8]) -> (x: u128)
    requires
        block@.len() == 16,
    ensures
        x == be_value(block@),
{
    let mut le: Vec<u8> = Vec::with_capacity(16);
    let mut i: usize = 0;
    while i < 16
        invariant
            i <= 16,
            block@.len() == 16,
            le@.len() == i,
            forall|k: int| 0 <= k < i ==> le@[k] == block@[15 - k],
        decreases 16 - i,
    {
        le.push(block[15 - i]);
        i = i + 1;
    }
    assert(le@ =~= block@.reverse());
    u128_from_le_bytes(le.as_slice())
}

/// The 16 big-endian bytes of a value.
fn u128_to_be(x: u128) -> (out: Vec<u8>)
    ensures
        out@ == be_bytes(x),
        out@.len() == 16,
{
    let le = u128_to_le_bytes(x);
    let mut out: Vec<u8> = Vec::with_capacity(16);
    let mut i: usize = 0;
    while i < 16
        invariant
            i <= 16,
            le@.len() == 16,
            le@ == vstd::bytes::spec_u128_to_le_bytes(x),
            out@.len() == i,
            forall|k: int| 0 <= k < i ==> out@[k] == le@[15 - k],
        decreases 16 - i,
    {
        out.push(le[15 - i]);
        i = i + 1;
    }
    assert(out@ =~= be_bytes(x));
    out
}

/// Computes [`ctr_block`].
fn counter_block(counter: u128, length_bits: u8, index: u128) -> (b: u128)
    ensures
        b == ctr_block(counter, length_bits, index),
{
    let prefix_mask: u128 = if length_bits >= 128 {
        0
    } else {
        (!0u128) << length_bits
    };
    let prefix = counter & prefix_mask;
    let initial_low = counter & !prefix_mask;
    prefix | (initial_low.wrapping_add(index) & !prefix_mask)
}

proof fn lemma_block_position(j: int, block_index: int, k: int)
    requires
        j == block_index * 16 + k,
        0 <= k < 16,
        0 <= block_index,
    ensures
        j / 16 == block_index,
        j % 16 == k,
{
    vstd::arithmetic::div_mod::lemma_fundamental_div_mod_converse(j, 16, block_index, k);
}

/// XORs `data` with the AES-CTR keystream: the counter block for block `i` is
/// [`ctr_block`]`(counter, length_bits, i)`.
fn ctr_xor(key: &[u8], counter: &[u8; 16], length_bits: u8, data: &[u8]) -> (out: Vec<u8>)
    requires
        valid_aes_key_len(key@.len()),
    ensures
        out@ == ctr_output(key@, counter@, length_bits, data@),
{
    let counter_int = be_to_u128(counter);
    let mut out: Vec<u8> = Vec::with_capacity(data.len());
    let mut block_index: usize = 0;
    let mut pos: usize = 0;
    while pos < data.len()
        invariant
            valid_aes_key_len(key@.len()),
            counter_int == be_value(counter@),
            pos <= data@.len(),
            out@.len() == pos,
            pos < data@.len() ==> pos == block_index * 16,
            block_index <= pos,
            forall|j: int|
                0 <= j < pos ==> out@[j] == data@[j] ^ ctr_keystream_byte(
                    key@,
                    counter@,
                    length_bits,
                    j,
                ),
        decreases data@.len() - pos,
    {
        let block_int = counter_block(counter_int, length_bits, block_index as u128);
        let block = u128_to_be(block_int);
        let keystream = encrypt_block(key, block.as_slice());
        let mut k: usize = 0;
        while k < 16 && pos < data.len()
            invariant
                valid_aes_key_len(key@.len()),
                counter_int == be_value(counter@),
                keystream@ == aes_block(key@, be_bytes(ctr_block(counter_int, length_bits, block_index as u128))),
                keystream@.len() == 16,
                k <= 16,
                pos <= data@.len(),
                out@.len() == pos,
                pos == block_index * 16 + k,
                forall|j: int|
                    0 <= j < pos ==> out@[j] == data@[j] ^ ctr_keystream_byte(
                        key@,
                        counter@,
                        length_bits,
                        j,
                    ),
            decreases 16 - k,
        {
            proof {
                lemma_block_position(pos as int, block_index as int, k as int);
            }
            out.push(data[pos] ^ keystream[k]);
            pos = pos + 1;
            k = k + 1;
        }
        block_index = block_index + 1;
    }
    assert(out@ =~= ctr_output(key@, counter@, length_bits, data@));
    out
}

/// What AES-CTR encryption (or decryption) yields: the data XORed with the keystream, or
/// [`CipherError::WrongKeyLength`] for a key that isn't 16/24/32 bytes.
pub open spec fn ctr_result(key: Seq<u8>, counter: Seq<u8>, length_bits: u8, data: Seq<u8>, res: Result<Vec<u8>, CipherError>) -> bool {
    &&& valid_aes_key_len(key.len()) ==> (res matches Ok(out) && out@ == ctr_output(key, counter, length_bits, data))
    &&& !valid_aes_key_len(key.len()) ==> res == Err::<Vec<u8>, CipherError>(CipherError::WrongKeyLength)
}

/// AES-CTR encrypt/decrypt (the same XOR operation both ways). `counter` is the 16-byte
/// initial counter block; `length_bits` is how many of its low-order bits form the wrapping
/// counter, the rest of the block being a fixed prefix that never changes.
pub fn ctr_encrypt_decrypt(key: &[u8], counter: &[u8; 16], length_bits: u8, data: &[u8]) -> (res:
    Result<Vec<u8>, CipherError>)
    ensures
        ctr_result(key@, counter@, length_bits, data@, res),
{
    if key.len() == 16 || key.len() == 24 || key.len() == 32 {
        Ok(ctr_xor(key, counter, length_bits, data))
    } else {
        Err(CipherError::WrongKeyLength)
    }
}


// ---------------------------------------------------------------------------------------------
// CBC with PKCS#7 padding

/// AES-128-CBC encryption of the PKCS#7-padded plaintext.
pub uninterp spec fn aes128_cbc_seal(key: Seq<u8>, iv: Seq<u8>, plaintext: Seq<u8>) -> Seq<u8>;

/// AES-192-CBC encryption of the PKCS#7-padded plaintext.
pub uninterp spec fn aes192_cbc_seal(key: Seq<u8>, iv: Seq<u8>, plaintext: Seq<u8>) -> Seq<u8>;

/// AES-256-CBC encryption of the PKCS#7-padded plaintext.
pub uninterp spec fn aes256_cbc_seal(key: Seq<u8>, iv: Seq<u8>, plaintext: Seq<u8>) -> Seq<u8>;

/// AES-CBC with PKCS#7 padding, the AES variant selected by the key's length.
pub open spec fn cbc_seal(key: Seq<u8>, iv: Seq<u8>, plaintext: Seq<u8>) -> Seq<u8> {
    if key.len() == 16 {
        aes128_cbc_seal(key, iv, plaintext)
    } else if key.len() == 24 {
        aes192_cbc_seal(key, iv, plaintext)
    } else {
        aes256_cbc_seal(key, iv, plaintext)
    }
}

/// PKCS#7 always adds between 1 and 16 bytes, up to the next multiple of the block size.
pub open spec fn cbc_output_len(plaintext_len: nat) -> nat {
    (plaintext_len / 16 + 1) * 16
}

/// `cbc::Encryptor::<Aes128>::encrypt_padded_vec_mut::<Pkcs7>`: the output is the named
/// AES-128-CBC encryption, whose length is the plaintext padded to the next whole block.
#[verifier::external_body]
fn aes128_cbc_encrypt(key: &[u8], iv: &[u8], plaintext: &[u8]) -> (out: Vec<u8>)
    requires
        key@.len() == 16,
        iv@.len() == 16,
    ensures
        out@ == aes128_cbc_seal(key@, iv@, plaintext@),
        out@.len() == cbc_output_len(plaintext@.len()),
{
    cbc::Encryptor::<Aes128>::new_from_slices(key, iv).unwrap().encrypt_padded_vec_mut::<Pkcs7>(
        plaintext,
    )
}

/// `cbc::Encryptor::<Aes192>::encrypt_padded_vec_mut::<Pkcs7>`: the output is the named
/// AES-192-CBC encryption, whose length is the plaintext padded to the next whole block.
#[verifier::external_body]
fn aes192_cbc_encrypt(key: &[u8], iv: &[u8], plaintext: &[u8]) -> (out: Vec<u8>)
    requires
        key@.len() == 24,
        iv@.len() == 16,
    ensures
        out@ == aes192_cbc_seal(key@, iv@, plaintext@),
        out@.len() == cbc_output_len(plaintext@.len()),
{
    cbc::Encryptor::<Aes192>::new_from_slices(key, iv).unwrap().encrypt_padded_vec_mut::<Pkcs7>(
        plaintext,
    )
}

/// `cbc::Encryptor::<Aes256>::encrypt_padded_vec_mut::<Pkcs7>`: the output is the named
/// AES-256-CBC encryption, whose length is the plaintext padded to the next whole block.
#[verifier::external_body]
fn aes256_cbc_encrypt(key: &[u8], iv: &[u8], plaintext: &[u8]) -> (out: Vec<u8>)
    requires
        key@.len() == 32,
        iv@.len() == 16,
    ensures
        out@ == aes256_cbc_seal(key@, iv@, plaintext@),
        out@.len() == cbc_output_len(plaintext@.len()),
{
    cbc::Encryptor::<Aes256>::new_from_slices(key, iv).unwrap().encrypt_padded_vec_mut::<Pkcs7>(
        plaintext,
    )
}

/// `cbc::Decryptor::<Aes128>::decrypt_padded_vec_mut::<Pkcs7>`: it gives back exactly the
/// plaintext whose encryption the ciphertext is (AES-CBC is a permutation and strict PKCS#7
/// unpadding is the inverse of padding), and fails on anything that is no such encryption. The
/// source (`decrypt_padded_inout`, `unpad_blocks`) refuses a ciphertext that is not a whole
/// number of blocks, and an empty one, before any decryption.
#[verifier::external_body]
fn aes128_cbc_decrypt(key: &[u8], iv: &[u8], ciphertext: &[u8]) -> (out: Option<Vec<u8>>)
    requires
        key@.len() == 16,
        iv@.len() == 16,
    ensures
        forall|p: Seq<u8>|
            #![trigger aes128_cbc_seal(key@, iv@, p)]
            aes128_cbc_seal(key@, iv@, p) == ciphertext@ ==> is_some_bytes(out, p),
        out matches Some(v) ==> aes128_cbc_seal(key@, iv@, v@) == ciphertext@,
        ciphertext@.len() == 0 || ciphertext@.len() % 16 != 0 ==> out is None,
{
    cbc::Decryptor::<Aes128>::new_from_slices(key, iv).unwrap().decrypt_padded_vec_mut::<Pkcs7>(
        ciphertext,
    ).ok()
}

/// `cbc::Decryptor::<Aes192>::decrypt_padded_vec_mut::<Pkcs7>`: it gives back exactly the
/// plaintext whose encryption the ciphertext is, and fails on anything that is no such
/// encryption.
#[verifier::external_body]
fn aes192_cbc_decrypt(key: &[u8], iv: &[u8], ciphertext: &[u8]) -> (out: Option<Vec<u8>>)
    requires
        key@.len() == 24,
        iv@.len() == 16,
    ensures
        forall|p: Seq<u8>|
            #![trigger aes192_cbc_seal(key@, iv@, p)]
            aes192_cbc_seal(key@, iv@, p) == ciphertext@ ==> is_some_bytes(out, p),
        out matches Some(v) ==> aes192_cbc_seal(key@, iv@, v@) == ciphertext@,
        ciphertext@.len() == 0 || ciphertext@.len() % 16 != 0 ==> out is None,
{
    cbc::Decryptor::<Aes192>::new_from_slices(key, iv).unwrap().decrypt_padded_vec_mut::<Pkcs7>(
        ciphertext,
    ).ok()
}

/// `cbc::Decryptor::<Aes256>::decrypt_padded_vec_mut::<Pkcs7>`: it gives back exactly the
/// plaintext whose encryption the ciphertext is, and fails on anything that is no such
/// encryption.
#[verifier::external_body]
fn aes256_cbc_decrypt(key: &[u8], iv: &[u8], ciphertext: &[u8]) -> (out: Option<Vec<u8>>)
    requires
        key@.len() == 32,
        iv@.len() == 16,
    ensures
        forall|p: Seq<u8>|
            #![trigger aes256_cbc_seal(key@, iv@, p)]
            aes256_cbc_seal(key@, iv@, p) == ciphertext@ ==> is_some_bytes(out, p),
        out matches Some(v) ==> aes256_cbc_seal(key@, iv@, v@) == ciphertext@,
        ciphertext@.len() == 0 || ciphertext@.len() % 16 != 0 ==> out is None,
{
    cbc::Decryptor::<Aes256>::new_from_slices(key, iv).unwrap().decrypt_padded_vec_mut::<Pkcs7>(
        ciphertext,
    ).ok()
}

/// What AES-CBC encryption yields: the PKCS#7-padded plaintext encrypted under the key and
/// IV, or an error for a wrong IV or key length.
pub open spec fn cbc_encrypt_result(key: Seq<u8>, iv: Seq<u8>, plaintext: Seq<u8>, res: Result<Vec<u8>, CipherError>) -> bool {
    &&& iv.len() != 16 ==> res == Err::<Vec<u8>, CipherError>(CipherError::WrongIvLength)
    &&& iv.len() == 16 && !valid_aes_key_len(key.len()) ==> res == Err::<Vec<u8>, CipherError>(CipherError::WrongKeyLength)
    &&& iv.len() == 16 && valid_aes_key_len(key.len()) ==> (res matches Ok(out) && out@ == cbc_seal(key, iv, plaintext)
        && out@.len() == cbc_output_len(plaintext.len()))
}

/// What AES-CBC decryption yields: a ciphertext that is the encryption of some plaintext under
/// the key and IV decrypts to exactly that plaintext; anything else is
/// [`CipherError::InvalidPadding`], in particular an empty ciphertext and one that is not a whole
/// number of 16-byte blocks; a wrong IV or key length is refused first.
pub open spec fn cbc_decrypt_result(key: Seq<u8>, iv: Seq<u8>, ciphertext: Seq<u8>, res: Result<Vec<u8>, CipherError>) -> bool {
    &&& iv.len() != 16 ==> res == Err::<Vec<u8>, CipherError>(CipherError::WrongIvLength)
    &&& iv.len() == 16 && !valid_aes_key_len(key.len()) ==> res == Err::<Vec<u8>, CipherError>(CipherError::WrongKeyLength)
    &&& iv.len() == 16 && valid_aes_key_len(key.len()) ==> {
        &&& forall|p: Seq<u8>| cbc_seal(key, iv, p) == ciphertext ==> (res matches Ok(out) && out@ == p)
        &&& res matches Ok(out) ==> cbc_seal(key, iv, out@) == ciphertext
        &&& res is Err ==> res == Err::<Vec<u8>, CipherError>(CipherError::InvalidPadding)
        &&& ciphertext.len() == 0 || ciphertext.len() % 16 != 0 ==> res == Err::<Vec<u8>, CipherError>(
            CipherError::InvalidPadding,
        )
    }
}

/// AES-CBC encrypt with PKCS#7 padding. The IV must be 16 bytes and the key 16/24/32 bytes.
pub fn cbc_encrypt(key: &[u8], iv: &[u8], plaintext: &[u8]) -> (res: Result<Vec<u8>, CipherError>)
    ensures
        cbc_encrypt_result(key@, iv@, plaintext@, res),
{
    if iv.len() != 16 {
        return Err(CipherError::WrongIvLength);
    }
    if key.len() == 16 {
        Ok(aes128_cbc_encrypt(key, iv, plaintext))
    } else if key.len() == 24 {
        Ok(aes192_cbc_encrypt(key, iv, plaintext))
    } else if key.len() == 32 {
        Ok(aes256_cbc_encrypt(key, iv, plaintext))
    } else {
        Err(CipherError::WrongKeyLength)
    }
}

/// AES-CBC decrypt, removing PKCS#7 padding. A ciphertext that is the encryption of some
/// plaintext under this key and IV decrypts to exactly that plaintext; anything else is
/// rejected as [`CipherError::InvalidPadding`].
pub fn cbc_decrypt(key: &[u8], iv: &[u8], ciphertext: &[u8]) -> (res: Result<Vec<u8>, CipherError>)
    ensures
        cbc_decrypt_result(key@, iv@, ciphertext@, res),
{
    if iv.len() != 16 {
        return Err(CipherError::WrongIvLength);
    }
    let out = if key.len() == 16 {
        aes128_cbc_decrypt(key, iv, ciphertext)
    } else if key.len() == 24 {
        aes192_cbc_decrypt(key, iv, ciphertext)
    } else if key.len() == 32 {
        aes256_cbc_decrypt(key, iv, ciphertext)
    } else {
        return Err(CipherError::WrongKeyLength);
    };
    match out {
        Some(v) => Ok(v),
        None => Err(CipherError::InvalidPadding),
    }
}

// ---------------------------------------------------------------------------------------------
// GCM

/// The largest plaintext, and the largest additional data, that AES-GCM accepts: 2^36 bytes.
pub open spec fn gcm_max_len() -> nat {
    0x10_0000_0000
}

/// Plaintext (or ciphertext body) and additional data within AES-GCM's limits.
pub open spec fn gcm_lengths_ok(text_len: nat, aad_len: nat) -> bool {
    text_len <= gcm_max_len() && aad_len <= gcm_max_len()
}

/// AES-128-GCM sealing (`ciphertext || 16-byte tag`) with a 12-byte IV.
pub uninterp spec fn aes128_gcm_seal(key: Seq<u8>, iv: Seq<u8>, aad: Seq<u8>, plaintext: Seq<u8>) -> Seq<u8>;

/// AES-192-GCM sealing (`ciphertext || 16-byte tag`) with a 12-byte IV.
pub uninterp spec fn aes192_gcm_seal(key: Seq<u8>, iv: Seq<u8>, aad: Seq<u8>, plaintext: Seq<u8>) -> Seq<u8>;

/// AES-256-GCM sealing (`ciphertext || 16-byte tag`) with a 12-byte IV.
pub uninterp spec fn aes256_gcm_seal(key: Seq<u8>, iv: Seq<u8>, aad: Seq<u8>, plaintext: Seq<u8>) -> Seq<u8>;

/// AES-GCM sealing, the AES variant selected by the key's length.
pub open spec fn gcm_seal(key: Seq<u8>, iv: Seq<u8>, aad: Seq<u8>, plaintext: Seq<u8>) -> Seq<u8> {
    if key.len() == 16 {
        aes128_gcm_seal(key, iv, aad, plaintext)
    } else if key.len() == 24 {
        aes192_gcm_seal(key, iv, aad, plaintext)
    } else {
        aes256_gcm_seal(key, iv, aad, plaintext)
    }
}

/// The additional data of a GCM call: absent means empty.
pub open spec fn aad_bytes(aad: Option<&[u8]>) -> Seq<u8> {
    match aad {
        Some(a) => a@,
        None => Seq::empty(),
    }
}

/// `aes_gcm::Aes128Gcm::encrypt`: succeeds exactly when plaintext and additional data are at
/// most 2^36 bytes, giving the named sealing, 16 bytes longer than the plaintext.
#[verifier::external_body]
fn aes128_gcm_encrypt(key: &[u8], iv: &[u8], aad: &[u8], plaintext: &[u8]) -> (out: Option<Vec<u8>>)
    requires
        key@.len() == 16,
        iv@.len() == 12,
    ensures
        out is Some <==> gcm_lengths_ok(plaintext@.len(), aad@.len()),
        out matches Some(v) ==> v@ == aes128_gcm_seal(key@, iv@, aad@, plaintext@),
        out matches Some(v) ==> v@.len() == plaintext@.len() + 16,
{
    Aes128Gcm::new(GenericArray::from_slice(key)).encrypt(
        GenericArray::from_slice(iv),
        Payload { msg: plaintext, aad },
    ).ok()
}

/// `aes_gcm::Aes192Gcm::encrypt`: succeeds exactly when plaintext and additional data are at
/// most 2^36 bytes, giving the named sealing, 16 bytes longer than the plaintext.
#[verifier::external_body]
fn aes192_gcm_encrypt(key: &[u8], iv: &[u8], aad: &[u8], plaintext: &[u8]) -> (out: Option<Vec<u8>>)
    requires
        key@.len() == 24,
        iv@.len() == 12,
    ensures
        out is Some <==> gcm_lengths_ok(plaintext@.len(), aad@.len()),
        out matches Some(v) ==> v@ == aes192_gcm_seal(key@, iv@, aad@, plaintext@),
        out matches Some(v) ==> v@.len() == plaintext@.len() + 16,
{
    Aes192Gcm::new(GenericArray::from_slice(key)).encrypt(
        GenericArray::from_slice(iv),
        Payload { msg: plaintext, aad },
    ).ok()
}

/// `aes_gcm::Aes256Gcm::encrypt`: succeeds exactly when plaintext and additional data are at
/// most 2^36 bytes, giving the named sealing, 16 bytes longer than the plaintext.
#[verifier::external_body]
fn aes256_gcm_encrypt(key: &[u8], iv: &[u8], aad: &[u8], plaintext: &[u8]) -> (out: Option<Vec<u8>>)
    requires
        key@.len() == 32,
        iv@.len() == 12,
    ensures
        out is Some <==> gcm_lengths_ok(plaintext@.len(), aad@.len()),
        out matches Some(v) ==> v@ == aes256_gcm_seal(key@, iv@, aad@, plaintext@),
        out matches Some(v) ==> v@.len() == plaintext@.len() + 16,
{
    Aes256Gcm::new(GenericArray::from_slice(key)).encrypt(
        GenericArray::from_slice(iv),
        Payload { msg: plaintext, aad },
    ).ok()
}

/// `aes_gcm::Aes128Gcm::decrypt`: gives back exactly the plaintext whose sealing the input is
/// (within GCM's length limits), and fails on anything that is no such sealing.
#[verifier::external_body]
fn aes128_gcm_decrypt(key: &[u8], iv: &[u8], aad: &[u8], ciphertext: &[u8]) -> (out: Option<Vec<u8>>)
    requires
        key@.len() == 16,
        iv@.len() == 12,
    ensures
        forall|p: Seq<u8>|
            #![trigger aes128_gcm_seal(key@, iv@, aad@, p)]
            aes128_gcm_seal(key@, iv@, aad@, p) == ciphertext@ ==> (gcm_lengths_ok(
                p.len(),
                aad@.len(),
            ) ==> is_some_bytes(out, p)),
        out matches Some(v) ==> aes128_gcm_seal(key@, iv@, aad@, v@) == ciphertext@,
{
    Aes128Gcm::new(GenericArray::from_slice(key)).decrypt(
        GenericArray::from_slice(iv),
        Payload { msg: ciphertext, aad },
    ).ok()
}

/// `aes_gcm::Aes192Gcm::decrypt`: gives back exactly the plaintext whose sealing the input is
/// (within GCM's length limits), and fails on anything that is no such sealing.
#[verifier::external_body]
fn aes192_gcm_decrypt(key: &[u8], iv: &[u8], aad: &[u8], ciphertext: &[u8]) -> (out: Option<Vec<u8>>)
    requires
        key@.len() == 24,
        iv@.len() == 12,
    ensures
        forall|p: Seq<u8>|
            #![trigger aes192_gcm_seal(key@, iv@, aad@, p)]
            aes192_gcm_seal(key@, iv@, aad@, p) == ciphertext@ ==> (gcm_lengths_ok(
                p.len(),
                aad@.len(),
            ) ==> is_some_bytes(out, p)),
        out matches Some(v) ==> aes192_gcm_seal(key@, iv@, aad@, v@) == ciphertext@,
{
    Aes192Gcm::new(GenericArray::from_slice(key)).decrypt(
        GenericArray::from_slice(iv),
        Payload { msg: ciphertext, aad },
    ).ok()
}

/// `aes_gcm::Aes256Gcm::decrypt`: gives back exactly the plaintext whose sealing the input is
/// (within GCM's length limits), and fails on anything that is no such sealing.
#[verifier::external_body]
fn aes256_gcm_decrypt(key: &[u8], iv: &[u8], aad: &[u8], ciphertext: &[u8]) -> (out: Option<Vec<u8>>)
    requires
        key@.len() == 32,
        iv@.len() == 12,
    ensures
        forall|p: Seq<u8>|
            #![trigger aes256_gcm_seal(key@, iv@, aad@, p)]
            aes256_gcm_seal(key@, iv@, aad@, p) == ciphertext@ ==> (gcm_lengths_ok(
                p.len(),
                aad@.len(),
            ) ==> is_some_bytes(out, p)),
        out matches Some(v) ==> aes256_gcm_seal(key@, iv@, aad@, v@) == ciphertext@,
{
    Aes256Gcm::new(GenericArray::from_slice(key)).decrypt(
        GenericArray::from_slice(iv),
        Payload { msg: ciphertext, aad },
    ).ok()
}

/// The 12-byte nonce GCM uses, taken from `iv` (callers have already checked its length).
fn gcm_nonce(iv: &[u8]) -> (nonce: Vec<u8>)
    requires
        iv@.len() == 12,
    ensures
        nonce@ == iv@,
{
    let mut nonce: Vec<u8> = Vec::with_capacity(12);
    let mut i: usize = 0;
    while i < iv.len()
        invariant
            i <= iv@.len(),
            nonce@ == iv@.subrange(0, i as int),
        decreases iv@.len() - i,
    {
        nonce.push(iv[i]);
        i = i + 1;
    }
    nonce
}

/// The additional data, or no bytes at all when none is given.
fn aad_or_empty(aad: Option<&[u8]>) -> (out: Vec<u8>)
    ensures
        out@ == aad_bytes(aad),
{
    let mut out: Vec<u8> = Vec::new();
    if let Some(a) = aad {
        let mut i: usize = 0;
        while i < a.len()
            invariant
                i <= a@.len(),
                out@ == a@.subrange(0, i as int),
            decreases a@.len() - i,
        {
            out.push(a[i]);
            i = i + 1;
        }
        assert(out@ =~= a@);
    }
    out
}

/// What AES-GCM encryption yields: `ciphertext || tag` under the key, IV and additional data,
/// 16 bytes longer than the plaintext; refused for a tag length other than 128, an IV other
/// than 12 bytes, a key that isn't 16/24/32 bytes, or inputs beyond GCM's length limit.
pub open spec fn gcm_encrypt_result(
    key: Seq<u8>,
    iv: Seq<u8>,
    aad: Seq<u8>,
    tag_length_bits: u16,
    plaintext: Seq<u8>,
    res: Result<Vec<u8>, CipherError>,
) -> bool {
    &&& tag_length_bits != 128 ==> res == Err::<Vec<u8>, CipherError>(CipherError::UnsupportedTagLength)
    &&& tag_length_bits == 128 && iv.len() != 12 ==> res == Err::<Vec<u8>, CipherError>(CipherError::WrongIvLength)
    &&& tag_length_bits == 128 && iv.len() == 12 && !valid_aes_key_len(key.len()) ==> res == Err::<Vec<u8>, CipherError>(
        CipherError::WrongKeyLength,
    )
    &&& tag_length_bits == 128 && iv.len() == 12 && valid_aes_key_len(key.len()) ==> {
        if plaintext.len() <= gcm_max_len() && aad.len() <= gcm_max_len() {
            res matches Ok(out) && out@ == gcm_seal(key, iv, aad, plaintext) && out@.len() == plaintext.len() + 16
        } else {
            res == Err::<Vec<u8>, CipherError>(CipherError::AuthenticationFailed)
        }
    }
}

/// What AES-GCM decryption yields: the sealed plaintext back, or
/// [`CipherError::AuthenticationFailed`] when the ciphertext, tag or additional data don't
/// check out; parameter errors as for encryption.
pub open spec fn gcm_decrypt_result(
    key: Seq<u8>,
    iv: Seq<u8>,
    aad: Seq<u8>,
    tag_length_bits: u16,
    ciphertext: Seq<u8>,
    res: Result<Vec<u8>, CipherError>,
) -> bool {
    &&& tag_length_bits != 128 ==> res == Err::<Vec<u8>, CipherError>(CipherError::UnsupportedTagLength)
    &&& tag_length_bits == 128 && iv.len() != 12 ==> res == Err::<Vec<u8>, CipherError>(CipherError::WrongIvLength)
    &&& tag_length_bits == 128 && iv.len() == 12 && !valid_aes_key_len(key.len()) ==> res == Err::<Vec<u8>, CipherError>(
        CipherError::WrongKeyLength,
    )
    &&& tag_length_bits == 128 && iv.len() == 12 && valid_aes_key_len(key.len()) ==> {
        &&& forall|p: Seq<u8>|
            gcm_seal(key, iv, aad, p) == ciphertext && p.len() <= gcm_max_len() && aad.len() <= gcm_max_len()
                ==> (res matches Ok(out) && out@ == p)
        &&& res matches Ok(out) ==> gcm_seal(key, iv, aad, out@) == ciphertext
        &&& res is Err ==> res == Err::<Vec<u8>, CipherError>(CipherError::AuthenticationFailed)
    }
}

/// Decrypting what AES-GCM encryption produced, with the same key, IV, additional data and tag
/// length, gives back the plaintext.
pub proof fn lemma_gcm_round_trip(
    key: Seq<u8>,
    iv: Seq<u8>,
    aad: Seq<u8>,
    tag_length_bits: u16,
    plaintext: Seq<u8>,
    sealed: Result<Vec<u8>, CipherError>,
    opened: Result<Vec<u8>, CipherError>,
)
    requires
        gcm_encrypt_result(key, iv, aad, tag_length_bits, plaintext, sealed),
        sealed matches Ok(ct) && gcm_decrypt_result(key, iv, aad, tag_length_bits, ct@, opened),
    ensures
        opened matches Ok(out) && out@ == plaintext,
{
}

/// Decrypting what AES-CBC encryption produced, with the same key and IV, gives back the
/// plaintext.
pub proof fn lemma_cbc_round_trip(
    key: Seq<u8>,
    iv: Seq<u8>,
    plaintext: Seq<u8>,
    sealed: Result<Vec<u8>, CipherError>,
    opened: Result<Vec<u8>, CipherError>,
)
    requires
        cbc_encrypt_result(key, iv, plaintext, sealed),
        sealed matches Ok(ct) && cbc_decrypt_result(key, iv, ct@, opened),
    ensures
        opened matches Ok(out) && out@ == plaintext,
{
}

/// AES-GCM encrypt, producing `ciphertext || tag`. Only a 12-byte IV and a 128-bit tag are
/// supported.
pub fn gcm_encrypt(key: &[u8], iv: &[u8], aad: Option<&[u8]>, tag_length_bits: u16, plaintext: &[u8]) -> (res:
    Result<Vec<u8>, CipherError>)
    ensures
        gcm_encrypt_result(key@, iv@, aad_bytes(aad), tag_length_bits, plaintext@, res),
{
    if tag_length_bits != 128 {
        return Err(CipherError::UnsupportedTagLength);
    }
    if iv.len() != 12 {
        return Err(CipherError::WrongIvLength);
    }
    let aad = aad_or_empty(aad);
    let nonce = gcm_nonce(iv);
    let out = if key.len() == 16 {
        aes128_gcm_encrypt(key, nonce.as_slice(), aad.as_slice(), plaintext)
    } else if key.len() == 24 {
        aes192_gcm_encrypt(key, nonce.as_slice(), aad.as_slice(), plaintext)
    } else if key.len() == 32 {
        aes256_gcm_encrypt(key, nonce.as_slice(), aad.as_slice(), plaintext)
    } else {
        return Err(CipherError::WrongKeyLength);
    };
    match out {
        Some(v) => Ok(v),
        None => Err(CipherError::AuthenticationFailed),
    }
}

/// AES-GCM decrypt of `ciphertext || tag`. A sealing of some plaintext under this key, IV and
/// additional data opens to exactly that plaintext; anything else is rejected as
/// [`CipherError::AuthenticationFailed`].
pub fn gcm_decrypt(key: &[u8], iv: &[u8], aad: Option<&[u8]>, tag_length_bits: u16, ciphertext: &[u8]) -> (res:
    Result<Vec<u8>, CipherError>)
    ensures
        gcm_decrypt_result(key@, iv@, aad_bytes(aad), tag_length_bits, ciphertext@, res),
{
    if tag_length_bits != 128 {
        return Err(CipherError::UnsupportedTagLength);
    }
    if iv.len() != 12 {
        return Err(CipherError::WrongIvLength);
    }
    let aad = aad_or_empty(aad);
    let nonce = gcm_nonce(iv);
    let out = if key.len() == 16 {
        aes128_gcm_decrypt(key, nonce.as_slice(), aad.as_slice(), ciphertext)
    } else if key.len() == 24 {
        aes192_gcm_decrypt(key, nonce.as_slice(), aad.as_slice(), ciphertext)
    } else if key.len() == 32 {
        aes256_gcm_decrypt(key, nonce.as_slice(), aad.as_slice(), ciphertext)
    } else {
        return Err(CipherError::WrongKeyLength);
    };
    match out {
        Some(v) => Ok(v),
        None => Err(CipherError::AuthenticationFailed),
    }
}

} // verus!
