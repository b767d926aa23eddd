[package]
name = "vault-service"
version = "0.1.0"
edition = "2021"
publish = false

[dependencies]
aes-gcm = "0.10"
argon2 = "0.5"
axum = "0.8"
base64 = "0.22"
dotenvy = "0.15"
hex = "0.4"
rand = "0.10"
serde = { version = "1", features = ["derive"] }
thiserror = "2"
tokio = { version = "1", features = ["macros", "net", "rt-multi-thread"] }
tower-http = { version = "0.6", features = ["trace"] }
tracing = "0.1"
tracing-subscriber = { version = "0.3", features = ["env-filter", "json"] }
zeroize = "1"

[dev-dependencies]
serde_json = "1"
