[package]
name = "auth_core"
version = "0.1.0"
edition = "2021"
publish = false

[dependencies]
jsonwebtoken = "=9.3.1"
serde_json = "=1.0.154"
base64 = "=0.22.1"
propelauth = "=0.23.5"
axum = "=0.6.20"
tokio = { version = "=1.54.1", features = ["full"] }
dotenv = "=0.15.0"

[dev-dependencies]
openssl = "=0.10.81"
