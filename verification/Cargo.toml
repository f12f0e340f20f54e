[package]
name = "app_registry"
version = "0.1.0"
edition = "2021"
publish = false

[dependencies]
rusqlite = "*"
bcrypt = "*"
serde = { version = "1", features = ["derive"] }
serde_json = "1"
serde_repr = "0.1"
axum = "0.7"
tokio = { version = "1", features = ["rt-multi-thread", "macros", "net"] }
jwt = "0.16"
hmac = "0.12"
sha2 = "0.10"
