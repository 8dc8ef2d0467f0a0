[package]
name = "hypersocket"
version = "0.1.0"
edition = "2021"
publish = false

[dependencies]
tungstenite = "0.21"
tokio-tungstenite = "0.21"
rocket = "0.5"
tokio = { version = "1", features = ["rt", "time"] }
syn = { version = "2", features = ["full"] }
proc-macro2 = "1"
quote = "1"
serde = { version = "1", features = ["derive"] }
serde_json = "1"
