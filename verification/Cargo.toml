[package]
name = "vocechat_e2ee"
version = "0.1.0"
edition = "2021"
publish = false

[dependencies]
aes-gcm = "0.10"
hkdf = "0.12"
sha2 = "0.10"
x25519-dalek = { version = "2", features = ["static_secrets"] }
ed25519-dalek = { version = "2", features = ["rand_core"] }
rand = "0.8"
base64 = "0.21"
serde = { version = "1", features = ["derive"] }
serde_json = "1"
md-5 = "0.10"
hex = "0.4"
argon2 = "0.5"
p256 = { version = "0.13", features = ["ecdh"] }
elliptic-curve = { version = "0.13", features = ["sec1"] }
openmls = "*"
openmls_rust_crypto = "*"
openmls_basic_credential = "*"
tokio = { version = "1", features = ["rt"] }
thiserror = "1"

[dev-dependencies]
minicbor = { version = "*", features = ["alloc"] }
