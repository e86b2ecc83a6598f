[package]
name = "ssb_publish"
version = "0.1.0"
edition = "2021"
publish = false

[dependencies]
serde = "=1.0.229"
sha2 = "=0.10.9"
ssb-crypto = "=0.2.3"
ssb-legacy-msg-data = "=0.1.4"
ssb-multiformats = "=0.4.2"
ssb-validate = "=1.4.2"

[dev-dependencies]
ssb-verify-signatures = "=1.1.1"
