[package]
name = "corecast_client"
version = "0.1.0"
edition = "2021"
publish = false

[dependencies]
bs58 = "0.5"
serde = { version = "1", features = ["derive"] }
serde_yaml = "0.9"
tokio = { version = "1", features = ["macros", "rt-multi-thread"] }
tonic = "0.12"
