//! WinterTC web-platform building blocks: WebCrypto key handling and ciphers, fetch data
//! models, event listener bookkeeping, and the smaller helpers around them.

pub mod blob;
pub mod channel;
pub mod console;
pub mod crypto;
pub mod dom_exception;
pub mod encoding;
pub mod events;
pub mod fetch;
pub mod fs;
pub mod text;
