//! `crypto.getRandomValues` and `crypto.randomUUID`.
use vstd::prelude::*;

use rand::rngs::OsRng;
use rand::RngCore;

use crate::text::string_from_chars;

verus! {

/// `OsRng::fill_bytes` into a fresh buffer: `len` bytes from the operating system's CSPRNG.
/// Only the length is determined.
#[verifier::external_body]
pub fn random_bytes(len: usize) -> (v: Vec<u8>)
    ensures
        v@.len() == len,
{
    let mut v = vec![0u8; len];
    OsRng.fill_bytes(&mut v);
    v
}

/// The most bytes one `getRandomValues` call may fill.
pub const MAX_RANDOM_VALUES_BYTES: usize = 65536;

/// Why `getRandomValues` refused.
#[derive(Debug, Clone, Copy, PartialEq, Eq, Structural)]
pub enum RandomError {
    /// More than 65536 bytes were requested (`QuotaExceededError`).
    QuotaExceeded,
}

/// `getRandomValues` for a typed array of `byte_len` bytes: fresh random bytes to copy into
/// it, or a refusal when it is over the 65536-byte quota.
pub fn random_values(byte_len: usize) -> (r: Result<Vec<u8>, RandomError>)
    ensures
        r is Err <==> byte_len > MAX_RANDOM_VALUES_BYTES,
        r matches Ok(v) ==> v@.len() == byte_len,
        r matches Err(e) ==> e == RandomError::QuotaExceeded,
{
    if byte_len > MAX_RANDOM_VALUES_BYTES {
        return Err(RandomError::QuotaExceeded);
    }
    Ok(random_bytes(byte_len))
}

/// The lowercase hexadecimal digit of a nibble.
pub open spec fn hex_digit(n: u8) -> char {
    if n < 10 {
        ((n + 48) as u8) as char
    } else {
        ((n + 87) as u8) as char
    }
}

/// Two lowercase hex digits of a byte.
pub open spec fn hex_byte(b: u8) -> Seq<char> {
    seq![hex_digit(b / 16), hex_digit(b % 16)]
}

/// The bytes of a version-4 (random) UUID: the version nibble is 4 and the variant bits 10.
pub open spec fn uuid_v4_bytes(b: Seq<u8>) -> Seq<u8> {
    b.update(6, (b[6] & 0x0f) | 0x40).update(8, (b[8] & 0x3f) | 0x80)
}

/// Hex of bytes `from..to`.
pub open spec fn hex_run(b: Seq<u8>, from: int, to: int) -> Seq<char>
    decreases to - from,
{
    if to <= from {
        Seq::empty()
    } else {
        hex_run(b, from, to - 1) + hex_byte(b[to - 1])
    }
}

/// The textual form `xxxxxxxx-xxxx-xxxx-xxxx-xxxxxxxxxxxx` of 16 bytes.
pub open spec fn uuid_text(b: Seq<u8>) -> Seq<char> {
    hex_run(b, 0, 4) + seq!['-'] + hex_run(b, 4, 6) + seq!['-'] + hex_run(b, 6, 8) + seq!['-']
        + hex_run(b, 8, 10) + seq!['-'] + hex_run(b, 10, 16)
}

fn hex_digit_exec(n: u8) -> (c: char)
    requires
        n < 16,
    ensures
        c == hex_digit(n),
{
    if n < 10 {
        (n + 48) as char
    } else {
        (n + 87) as char
    }
}

/// Formats 16 random bytes as a version-4 UUID.
pub fn uuid_from_bytes(bytes: &[u8]) -> (s: String)
    requires
        bytes@.len() == 16,
    ensures
        s@ == uuid_text(uuid_v4_bytes(bytes@)),
        s@.len() == 36,
{
    let ghost b = uuid_v4_bytes(bytes@);
    let mut out: Vec<char> = Vec::new();
    let mut i: usize = 0;
    while i < 16
        invariant
            b == uuid_v4_bytes(bytes@),
            bytes@.len() == 16,
            i <= 16,
            out@ == uuid_prefix(b, i as int),
        decreases 16 - i,
    {
        let mut v: u8 = bytes[i];
        if i == 6 {
            v = (v & 0x0f) | 0x40;
        } else if i == 8 {
            v = (v & 0x3f) | 0x80;
        }
        assert(v == b[i as int]);
        if i == 4 || i == 6 || i == 8 || i == 10 {
            out.push('-');
        }
        out.push(hex_digit_exec(v / 16));
        out.push(hex_digit_exec(v % 16));
        i = i + 1;
        proof {
            lemma_uuid_prefix_step(b, (i - 1) as int);
        }
    }
    proof {
        lemma_uuid_prefix_full(b);
    }
    string_from_chars(&out)
}

/// The text of the first `n` bytes of a UUID, dashes included.
pub open spec fn uuid_prefix(b: Seq<u8>, n: int) -> Seq<char>
    decreases n,
{
    if n <= 0 {
        Seq::empty()
    } else {
        uuid_prefix(b, n - 1) + (if n - 1 == 4 || n - 1 == 6 || n - 1 == 8 || n - 1 == 10 {
            seq!['-']
        } else {
            Seq::empty()
        }) + hex_byte(b[n - 1])
    }
}

proof fn lemma_uuid_prefix_step(b: Seq<u8>, i: int)
    requires
        0 <= i,
    ensures
        uuid_prefix(b, i + 1) == uuid_prefix(b, i) + (if i == 4 || i == 6 || i == 8 || i == 10 {
            seq!['-']
        } else {
            Seq::empty()
        }) + hex_byte(b[i]),
{
}

proof fn lemma_uuid_prefix_full(b: Seq<u8>)
    ensures
        uuid_prefix(b, 16) == uuid_text(b),
        uuid_prefix(b, 16).len() == 36,
{
    reveal_with_fuel(uuid_prefix, 17);
    reveal_with_fuel(hex_run, 7);
    assert(uuid_prefix(b, 16) =~= uuid_text(b));
}

/// `crypto.randomUUID`: a fresh version-4 UUID in its 36-character textual form.
pub fn random_uuid() -> (s: String)
    ensures
        exists|b: Seq<u8>| b.len() == 16 && s@ == uuid_text(uuid_v4_bytes(b)),
        s@.len() == 36,
{
    let bytes = random_bytes(16);
    let s = uuid_from_bytes(&bytes);
    assert(bytes@.len() == 16 && s@ == uuid_text(uuid_v4_bytes(bytes@)));
    s
}

} // verus!
