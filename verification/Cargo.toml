[package]
name = "sawtooth_rest_api"
version = "0.1.0"
edition = "2021"
publish = false

[dependencies]
actix-web = "4"
anyhow = "1"
serde = { version = "1", features = ["derive"] }
serde_json = "1"
url = "2"
