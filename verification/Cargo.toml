[package]
name = "racing-car"
version = "0.1.0"
edition = "2021"
publish = false

[dependencies]
rand = "0.10"
serde = { version = "1", features = ["derive"] }
ron = "0.12"
