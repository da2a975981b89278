[package]
name = "artemis"
version = "0.1.0"
edition = "2021"
publish = false

[dependencies]
rand = "0.10"
ron = "0.12"
serde = { version = "1", features = ["derive"] }
directories = "6"
