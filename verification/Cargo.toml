[package]
name = "meta_secret_core"
version = "0.1.0"
edition = "2021"
publish = false

[dependencies]
sha2 = "=0.10.9"
base64 = "=0.22.1"
rand = "=0.8.8"
serde_json = "1"
