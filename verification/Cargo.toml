[package]
name = "crusty_core"
version = "0.1.0"
edition = "2021"
publish = false

[dependencies]
bincode = { version = "2", features = ["derive"] }
tokio = { version = "1", features = ["net", "io-util", "time", "rt"] }
