[package]
name = "connector_core"
version = "0.1.0"
edition = "2021"
publish = false

[dependencies]
serde_json = "1"
encoding_rs = "0.8"
bytes = "1"
