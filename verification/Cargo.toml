[package]
name = "chat_service"
version = "0.1.0"
edition = "2021"
publish = false

[dependencies]
chrono = "=0.4.45"
tiktoken-rs = "=0.4.5"
uuid = { version = "=1.27.0", features = ["v4"] }
