[package]
name = "exactobar"
version = "0.1.0"
edition = "2021"
publish = false

[dependencies]
chrono = "0.4"
rand = "0.8"
reqwest = { version = "0.12", features = ["json"] }
serde = { version = "1", features = ["derive"] }
serde_json = "1"
smol = "2"
tracing = "0.1"
tracing-subscriber = "0.3"
