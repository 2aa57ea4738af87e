[package]
name = "ebod"
version = "0.1.0"
edition = "2021"
publish = false

[dependencies]
clap = { version = "*", features = ["derive"] }
colored = "*"
hf = "*"
serde = { version = "*", features = ["derive"] }
serde_json = "*"
