[package]
name = "ai_gateway"
version = "0.1.0"
edition = "2021"
publish = false

[dependencies]
aes-gcm = "0.10"
base64 = "*"
rand = "0.8"
sha2 = "0.10"
hex = "0.4"
bcrypt = "*"
uuid = { version = "1", features = ["v4"] }
chrono = "0.4"
serde = { version = "1", features = ["derive"] }
serde_json = "1"
tokio = { version = "1", features = ["rt-multi-thread", "macros", "net"] }
axum = { version = "*", features = ["multipart"] }
reqwest = { version = "*", default-features = false, features = ["json", "multipart", "rustls-tls"] }
mongodb = "*"
futures = "0.3"
async-trait = "0.1"
tower-http = { version = "*", features = ["cors"] }
