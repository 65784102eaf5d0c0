[package]
name = "tick_engine"
version = "0.1.0"
edition = "2021"
publish = false

[dependencies]
log = "0.4"
pictorus-blocks = "0.0.0"
pictorus-traits = "0.0.0"
serde = { version = "1", features = ["derive"] }
signal-hook = "0.3"
