[package]
name = "mljboard_bot"
version = "0.1.0"
edition = "2021"
publish = false

[dependencies]
url = "=2.5.8"
tokio = { version = "=1.53.2", features = ["macros", "rt-multi-thread", "sync", "time", "signal"] }
reqwest = { version = "=0.13.5", default-features = false, features = ["json"] }
serde = { version = "=1.0.229", features = ["derive"] }
serde_json = "=1.0.151"
clap = "=4.6.7"
prefixed-api-key = { version = "=0.3.0", features = ["sha2"] }
image = "=0.25.10"
