[package]
name = "rust_authz"
version = "0.1.0"
edition = "2021"
publish = false

[dependencies]
serde = { version = "=1.0.229", features = ["derive"] }
serde_json = "=1.0.151"
jsonwebtoken = { version = "=11.1.0", features = ["rust_crypto"] }
headers = "=0.4.2"
base64 = "=0.23.1"
actix-web = "=4.15.0"
reqwest = { version = "=0.13.5", default-features = false }
config = "=0.15.27"

[dev-dependencies]
