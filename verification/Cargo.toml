[package]
name = "zallet"
version = "0.1.0"
edition = "2021"
publish = false

[dependencies]
uuid = "*"
serde = { version = "*", features = ["derive"] }
serde_json = "*"
clap = { version = "*", features = ["derive"] }
