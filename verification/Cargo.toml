[package]
name = "agentropic-messaging"
version = "0.1.0"
edition = "2021"
publish = false

[dependencies]
serde = { version = "1", features = ["derive"] }
thiserror = "*"
tokio = { version = "1", features = ["sync", "time", "rt"] }
uuid = { version = "1", features = ["v4", "serde"] }
