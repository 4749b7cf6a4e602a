[package]
name = "place_bot"
version = "0.1.0"
edition = "2021"
publish = false

[dependencies]
bmp = "0.5"
rand = "0.8"
reqwest = { version = "0.12", default-features = false, features = ["blocking", "rustls-tls"] }
serde = { version = "1", features = ["derive"] }
serde_json = "1"
toml = "0.8"
