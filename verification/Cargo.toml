[package]
name = "sweep_engine"
version = "0.1.0"
edition = "2021"
publish = false

[dependencies]
serde = { version = "1", features = ["derive"] }
trash = "*"
uuid = { version = "1", features = ["v4"] }
walkdir = "2"
