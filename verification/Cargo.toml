[package]
name = "zoom-sdk-linux-rs"
version = "0.1.0"
edition = "2021"
publish = false

[dependencies]
chrono = "0.4"
glib = "*"
hmac = "0.12"
jwt = "0.16"
serde = { version = "1", features = ["derive"] }
sha2 = "0.10"
tracing = "0.1"
url = "2"
