# klaver-wintertc

Building blocks of a WinterTC-style web-platform runtime (Web Crypto, fetch data models,
URL handling, events, text encoding, console formatting), written as a Verus library: every
function in `src/` carries a `requires`/`ensures` contract that Verus proves.

## Layout

- `src/crypto/`: key generation, import and export (raw, JWK, PKCS#8, SPKI), AES-GCM/CBC/CTR,
  HMAC, HKDF/PBKDF2, RSA (PKCS#1 v1.5, PSS, OAEP), ECDSA/ECDH, and the `subtle` operations that
  check a key's type, algorithm and usages before using it. The cipher, hash and curve
  arithmetic is done by the RustCrypto crates, behind small trusted wrappers whose contracts
  name what each call returns.
- `src/fetch/`: `URL`, `URLSearchParams`, `Headers`, methods, `FormData` and its multipart
  encoding, bodies read once, `Request`/`Response`, the client choice and the steps of a
  `fetch()` call.
- `src/events/`: `Event` and its subclasses, the listener registry of an event target and its
  dispatch order, `AbortSignal`/`AbortController`.
- `src/channel.rs`: the states of a `MessagePort`.
- `src/encoding/`: `atob`/`btoa`, `TextEncoder`/`TextDecoder` by label.
- `src/blob.rs`, `src/console.rs`, `src/dom_exception.rs`, `src/fs.rs`, `src/text.rs`: blobs and
  files, the console formatter, `DOMException` names and codes, file-system path resolution,
  and string helpers.
- `tests/`: ordinary Rust tests that run the library with the real outside crates.
- `app/`: the unverified host side: writing console output, timers, driving event dispatch and
  `fetch` calls, and converting to and from the `http` crate's types.
