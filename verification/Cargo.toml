[package]
name = "kpi_tool"
version = "0.1.0"
edition = "2021"
publish = false

[dependencies]
chrono = "=0.4.45"
uuid = { version = "=1.29.0", features = ["v4"] }
serde = { version = "=1.0.229", features = ["derive"] }
serde_json = "=1.0.154"
rusqlite = { version = "=0.41.0", default-features = false }
reqwest = { version = "0.12", default-features = false, features = ["json", "rustls-tls"] }
