[package]
name = "multisig_schnorr"
version = "0.1.0"
edition = "2021"
publish = false

[dependencies]
curv-kzen = "=0.10.0"
sha2 = "0.9"
