[package]
name = "tradesatoshi"
version = "0.1.0"
edition = "2021"
publish = false

[dependencies]
base64 = "0.9"
hmac = "0.7"
sha2 = "0.8"
url = "1.7"
serde_json = "1"
serde = { version = "1", features = ["derive"] }
rand = "0.5"
query_params = "0.1"
reqwest = { version = "0.12", default-features = false, features = ["blocking"] }
