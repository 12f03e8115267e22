[package]
name = "chottu"
version = "0.1.0"
edition = "2021"
publish = false

[dependencies]
serde_json = "1"
keyring = { version = "3", features = ["linux-native"] }
reqwest = { version = "0.12", default-features = false, features = ["blocking"] }
dirs = "6"
