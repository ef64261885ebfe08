[package]
name = "notify_relay"
version = "0.1.0"
edition = "2021"
publish = false

[dependencies]
serde_json = "*"
reqwest = { version = "*", default-features = false }
actix-web = { version = "*", default-features = false }
