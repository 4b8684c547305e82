[package]
name = "music_bot"
version = "0.1.0"
edition = "2021"
publish = false

[dependencies]
anyhow = "1"
poise = { version = "0.6", default-features = false, features = ["cache"] }
serenity = { version = "0.12", default-features = false, features = ["builder", "cache", "client", "collector", "gateway", "model", "utils", "rustls_backend"] }
reqwest = "0.11"
tokio = { version = "1", features = ["macros", "rt-multi-thread", "sync"] }
