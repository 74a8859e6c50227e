[package]
name = "toolgate"
version = "0.1.0"
edition = "2021"
publish = false

[dependencies]
serde_json = "*"
async-trait = "*"
chrono = "*"
tokio = { version = "*", features = ["process", "io-util", "time", "rt", "sync"] }
