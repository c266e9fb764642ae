[package]
name = "komorebi"
version = "0.1.0"
edition = "2021"
publish = false

[dependencies]
serde = { version = "1", features = ["derive"] }
serde_json = { version = "1", features = ["preserve_order"] }
strum = { version = "0.26", features = ["derive"] }
clap = { version = "3", features = ["derive"] }
color-eyre = "0.6"
