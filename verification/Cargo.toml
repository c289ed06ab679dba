[package]
name = "antiphish_bot"
version = "0.1.0"
edition = "2021"
publish = false

[dependencies]
clamav-client = "*"
serenity = "0.12"
tokio = { version = "1", features = ["macros", "rt-multi-thread", "sync", "time"] }
reqwest = { version = "0.12", features = ["stream"] }
futures-util = "0.3"
serde = { version = "1", features = ["derive"] }
serde_json = "1"
signal-hook = "0.3"

[dev-dependencies]
regex = "1"
