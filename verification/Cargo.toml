[package]
name = "yral_ssr"
version = "0.1.0"
edition = "2021"
publish = false

[dependencies]
indexmap = "2"
priority-queue = "2"
hex = "0.4"
candid = "0.10"
serde = { version = "1", features = ["derive"] }
serde_json = "1"
