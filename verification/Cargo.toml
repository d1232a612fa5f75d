[package]
name = "chat_relay"
version = "0.1.0"
edition = "2021"
publish = false

[dependencies]
actix = "0.13"
actix-web = { version = "4", default-features = false, features = ["macros"] }
actix-web-actors = "4"
actix-ws = "*"
env_logger = "*"
serde = { version = "1", features = ["derive"] }
serde_json = "1"
uuid = { version = "1", features = ["v4"] }
