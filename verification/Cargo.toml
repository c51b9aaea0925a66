[package]
name = "vk_bot_context"
version = "0.1.0"
edition = "2021"
publish = false

[dependencies]
rand = "*"
serde_json = "*"
rvk = "*"
tokio = { version = "*", features = ["rt"] }
