[package]
name = "rustgram"
version = "0.1.0"
edition = "2021"
publish = false

[dependencies]
hyper = { version = "0.14", features = ["http1", "server", "tcp"] }
matchit = "0.7"
serde = { version = "1", features = ["derive"] }
serde_yaml = "0.9"
