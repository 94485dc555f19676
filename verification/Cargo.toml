[package]
name = "ed_signature_test"
version = "0.1.0"
edition = "2021"
publish = false

[dependencies]
ed25519-compact = "*"
