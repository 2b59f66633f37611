[package]
name = "lupo_tts"
version = "0.1.0"
edition = "2021"
publish = false

[dependencies]
serde_json = "1"
reqwest = { version = "0.12", default-features = false, features = ["rustls-tls"] }
tokio = { version = "1", features = ["rt-multi-thread", "macros"] }
rodio = "0.20"
bytes = "1"
