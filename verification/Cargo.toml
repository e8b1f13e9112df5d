[package]
name = "todo_list"
version = "0.1.0"
edition = "2021"
publish = false

[dependencies]
env_logger = "=0.11.11"
serde = { version = "=1.0.229", features = ["derive"] }
