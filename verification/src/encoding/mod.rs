//! The WHATWG encoding helpers: `atob`/`btoa`, `TextEncoder` and `TextDecoder`.

pub mod b64;
pub mod text_codec;
