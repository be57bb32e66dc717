[package]
name = "weekly_report"
version = "0.1.0"
edition = "2021"
publish = false

[dependencies]
serde_json = "1"
tiktoken-rs = "*"
http_req = { version = "*", default-features = false }
chrono = { version = "0.4", default-features = false, features = ["clock"] }
urlencoding = "2"
base64 = "0.13"
anyhow = "1"
