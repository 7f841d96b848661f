[package]
name = "winsdk"
version = "0.1.0"
edition = "2021"
publish = false

[dependencies]
winreg = { version = "*", features = ["serialization-serde"] }
serde = { version = "*", features = ["derive"] }
serde_derive = "*"
