[package]
name = "mercury_reader"
version = "0.1.0"
edition = "2021"
publish = false

[dependencies]
feed-rs = "=2.4.0"
url = "=2.5.8"
roxmltree = "=0.20.0"
uuid = { version = "=1.29.0", features = ["v4"] }
chrono = "=0.4.45"
serde = { version = "=1.0.229", features = ["derive"] }
sqlx = { version = "=0.8.6", default-features = false, features = ["runtime-tokio", "sqlite", "derive"] }
reqwest = { version = "=0.12.28", default-features = false, features = ["rustls-tls"] }
tokio = { version = "=1.54.1", features = ["rt-multi-thread", "macros"] }
