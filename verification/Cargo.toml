[package]
name = "cogworks"
version = "0.1.0"
edition = "2021"
publish = false

[dependencies]
chrono = "*"
serde = { version = "*", features = ["derive"] }
thiserror = "*"
uuid = { version = "*", features = ["v4"] }
