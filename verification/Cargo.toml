[package]
name = "multi_signer"
version = "0.1.0"
edition = "2021"
publish = false

[dependencies]
base_xx = "=0.7.1"
ed25519-dalek = { version = "=2.2.0", features = ["rand_core", "digest"] }
k256 = { version = "=0.13.4", features = ["ecdsa"] }
rand_core = { version = "=0.6.4", features = ["getrandom"] }
rsa = "=0.9.10"
slahasher = "=0.3.13"

[dev-dependencies]
digest = "=0.10.7"
sha3 = "=0.10.9"
