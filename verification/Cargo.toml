[package]
name = "notesynth"
version = "0.1.0"
edition = "2021"
publish = false

[dependencies]
rodio = "0.19"
serde = { version = "1", features = ["derive"] }
serde_json = "1"
