[package]
name = "fed_speeches"
version = "0.1.0"
edition = "2021"
publish = false

[dependencies]
anyhow = "1"
chrono = "0.4"
chrono-tz = "0.10"
reqwest = { version = "0.12", default-features = false, features = ["blocking"] }
serde_json = "1"
