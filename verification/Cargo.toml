[package]
name = "modo"
version = "0.1.0"
edition = "2021"
publish = false

[dependencies]
bytes = "=1.12.1"
ulid = "=1.2.1"
nanoid = "=0.4.0"
sha2 = "=0.10.9"
serde = { version = "=1.0.229", features = ["derive"] }
serde_json = "=1.0.154"
sea-orm = { version = "=1.1.20", default-features = false }
axum = { version = "=0.8.9", features = ["multipart"] }
axum-extra = { version = "=0.10.3", features = ["cookie-private"] }
cookie = "=0.18.2"
tokio = { version = "=1.54.1", features = ["rt-multi-thread", "macros", "time", "io-util"] }
tokio-util = { version = "=0.7.20", features = ["io"] }
futures-util = "=0.3.34"
http = "=1.5.0"
minijinja = { version = "=2.24.0", features = ["loader"] }
tracing = "=0.1.44"
async-trait = "=0.1.92"
inventory = "=0.3.25"
chrono = "=0.4.45"
cron = "*"
