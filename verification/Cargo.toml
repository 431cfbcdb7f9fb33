[package]
name = "download_engine"
version = "0.1.0"
edition = "2021"
publish = false

[dependencies]
reqwest = { version = "*", default-features = false, features = ["stream"] }
futures-util = "*"
