//! Raw cryptographic operations and the WebCrypto key model built on them.

pub mod aes;
pub mod digest;
pub mod hmac;
pub mod kdf;
pub mod rsa;
pub mod ec;
pub mod jwk;
pub mod key;
pub mod random;
pub mod algorithm;
pub mod subtle;
