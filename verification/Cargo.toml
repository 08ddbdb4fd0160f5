[package]
name = "blockvision_client"
version = "0.1.0"
edition = "2021"
publish = false

[dependencies]
serde_json = "=1.0.151"
reqwest = { version = "=0.13.5", default-features = false, features = ["query"] }
secrecy = "=0.10.3"
