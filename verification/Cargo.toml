[package]
name = "holiday_wheel"
version = "0.1.0"
edition = "2021"
publish = false

[dependencies]
rand = "=0.8.8"
tracing = "=0.1.44"
argon2 = "=0.5.3"
pbkdf2 = "=0.12.2"
sha2 = "=0.10.9"
hex = "=0.4.3"
tokio = { version = "=1.54.1", features = ["rt-multi-thread", "macros", "time", "sync", "signal"] }
axum = "=0.8.9"
socketioxide = "=0.15.2"
serde = { version = "=1.0.229", features = ["derive"] }
serde_json = "=1.0.154"
tracing-subscriber = { version = "=0.3.23", features = ["env-filter"] }
dotenvy = "=0.15.7"
governor = "=0.6.3"
uuid = { version = "=1.29.1", features = ["v4", "v5"] }
base64 = "=0.22.1"
urlencoding = "=2.1.3"
webauthn-rs = { version = "=0.5.5", features = ["danger-allow-state-serialisation"] }
jsonwebtoken = "=9.3.1"
axum-extra = { version = "0.10", features = ["cookie"] }
time = "0.3"
