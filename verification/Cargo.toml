[package]
name = "referral_points"
version = "0.1.0"
edition = "2021"
publish = false

[dependencies]
hex = "*"
sha3-rust = "*"
password-encryptor = "*"
chrono = "*"
axum = "*"
axum-extra = { version = "*", features = ["typed-header"] }
tokio = { version = "*", features = ["macros", "rt-multi-thread", "net"] }
tower-http = { version = "*", features = ["cors"] }
serde = { version = "*", features = ["derive"] }
serde_json = "*"
jsonwebtoken = "*"
redis = { version = "*", features = ["tokio-comp"] }
redis-macros = "*"
dotenv = "*"
