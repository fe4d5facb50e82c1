[package]
name = "queue_demo"
version = "0.1.0"
edition = "2021"
publish = false

[dependencies]
openiap-client = "*"
tokio = { version = "*", features = ["full"] }
