[package]
name = "telegram_mcp_rs"
version = "0.1.0"
edition = "2021"
publish = false

[dependencies]
anyhow = "1"
async-trait = "*"
axum = "*"
base64 = "*"
clap = { version = "4", features = ["derive"] }
dotenvy = "*"
futures-util = "*"
grammers-client = "*"
grammers-mtsender = "*"
grammers-session = "*"
grammers-tl-types = "*"
libsql = { version = "*", default-features = false, features = ["core"] }
rand = "*"
serde = { version = "1", features = ["derive"] }
serde_json = "1"
thiserror = "*"
tokio = { version = "1", features = ["full"] }
tokio-stream = "*"
tracing = "*"
tracing-subscriber = "*"
uuid = { version = "1", features = ["v4"] }
