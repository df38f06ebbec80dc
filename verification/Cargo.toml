[package]
name = "amp_signer"
version = "0.1.0"
edition = "2021"
publish = false

[dependencies]
async-trait = "0.1"
serde_json = "1"
tracing = "0.1"
