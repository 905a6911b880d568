[package]
name = "wschannel"
version = "0.1.0"
edition = "2021"
publish = false

[dependencies]
serde = { version = "1", features = ["derive"] }
serde_json = "1"
url = "2"
tungstenite = "*"
tokio-tungstenite = "*"
futures = "0.3"
