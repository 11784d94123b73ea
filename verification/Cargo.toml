[package]
name = "punchout_mock"
version = "0.1.0"
edition = "2021"
publish = false

[dependencies]
uuid = { version = "1", features = ["v4"] }
chrono = "0.4"
urlencoding = "2"
actix-web = "4"
serde = { version = "1", features = ["derive"] }
serde_json = "1"
tokio = { version = "1", features = ["sync", "macros"] }
url = "2"
hyper = { version = "0.14", features = ["client", "http1", "tcp"] }
hyper-trust-dns = "*"
