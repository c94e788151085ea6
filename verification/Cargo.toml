[package]
name = "tune_manager"
version = "0.1.0"
edition = "2021"
publish = false

[dependencies]
id3 = "=1.17.2"
regex = "=1.13.1"
uuid = { version = "=1.29.0", features = ["v4"] }
clap = { version = "=4.6.7", features = ["derive"] }
serde = { version = "1", features = ["derive"] }
serde_json = "1"
