[package]
name = "qrng_client"
version = "0.1.0"
edition = "2021"
publish = false

[dependencies]
rand = "0.8"
serde_json = "1"
reqwest = { version = "0.11", default-features = false, features = ["blocking", "json"] }
