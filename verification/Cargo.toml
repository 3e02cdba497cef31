[package]
name = "tcp_sessions"
version = "0.1.0"
edition = "2021"
publish = false

[dependencies]
tokio = { version = "*", features = ["full"] }
bytes = "*"
futures = "*"
