[package]
name = "klaver-wintertc"
version = "0.1.0"
edition = "2021"
publish = false

[dependencies]
aes = "=0.8.4"
aes-gcm = "=0.10.3"
cbc = { version = "=0.1.2", features = ["alloc"] }
hmac = "=0.12.1"
sha1 = "=0.10.7"
sha2 = "=0.10.9"
hkdf = "=0.12.4"
pbkdf2 = { version = "=0.12.2", features = ["hmac"] }
rsa = "=0.9.10"
p256 = { version = "=0.13.2", features = ["ecdsa", "ecdh", "pkcs8"] }
p384 = { version = "=0.13.1", features = ["ecdsa", "ecdh", "pkcs8"] }
p521 = { version = "=0.13.3", features = ["ecdsa", "ecdh", "pkcs8"] }
rand = "=0.8.8"
base64 = "=0.22.1"
form_urlencoded = "=1.2.2"
urlencoding = "=2.1.3"
http = "=1.5.0"
encoding_rs = "=0.8.44"
url = "=2.5.8"
rquickjs = "=0.14.0"
relative-path = "1"
