[package]
name = "auth_core"
version = "0.1.0"
edition = "2021"
publish = false

[dependencies]
bcrypt = "=0.19.3"
jsonwebtoken = { version = "=11.1.0", features = ["rust_crypto"] }
chrono = "=0.4.45"
serde = { version = "=1.0.229", features = ["derive"] }
serde_json = "=1.0.151"
axum = "=0.8.9"
tokio = { version = "=1.53.2", features = ["rt-multi-thread", "net", "macros"] }
tower-http = { version = "=0.7.1", features = ["cors"] }
