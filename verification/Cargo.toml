[package]
name = "sqlbridge"
version = "0.1.0"
edition = "2021"
publish = false

[dependencies]
sqlx = { version = "0.7", features = ["runtime-tokio-rustls", "sqlite", "mysql", "time", "json", "migrate"] }
tokio = { version = "1", features = ["rt", "rt-multi-thread", "macros", "sync"] }
serde = { version = "1", features = ["derive"] }
serde_json = "1"
thiserror = "1"
anyhow = "1"
time = "0.3"
