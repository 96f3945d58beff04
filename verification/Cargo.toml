[package]
name = "reqwest-pretty-json"
version = "0.11.0"
edition = "2021"
publish = false

[dependencies]
reqwest = { version = "0.11", default-features = false, features = ["blocking", "json"] }
serde = "1"
serde_json = "1"
