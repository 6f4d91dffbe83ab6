[package]
name = "webhook_recorder"
version = "0.1.0"
edition = "2021"
publish = false

[dependencies]
serde_json = "1"
actix-web = "4"
serde = { version = "1", features = ["derive"] }
env_logger = "*"
