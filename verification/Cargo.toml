[package]
name = "nel"
version = "0.2.0"
edition = "2021"
publish = false

[dependencies]
rustls = { version = "0.23", default-features = false, features = ["std"] }
hyper = { version = "1", default-features = false }
reqwest = { version = "0.12", default-features = false }
