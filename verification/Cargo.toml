[package]
name = "daemon"
version = "0.1.0"
edition = "2021"
publish = false

[dependencies]
camino = "1"
serde = { version = "1", features = ["derive"] }
serde_json = "1"
tokio = { version = "1", features = ["rt", "time", "sync", "macros", "io-util", "net", "signal"] }
