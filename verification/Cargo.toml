[package]
name = "kanuni"
version = "0.1.0"
edition = "2021"
publish = false

[dependencies]
anyhow = "=1.0.104"
chrono = "=0.4.45"
clap = { version = "=4.6.7", features = ["derive"] }
directories = "=6.0.0"
futures-util = "=0.3.34"
keyring = { version = "=3.6.3", default-features = false, features = ["linux-native"] }
reqwest = { version = "=0.13.5", default-features = false, features = ["json"] }
serde = { version = "=1.0.229", features = ["derive"] }
serde_json = "=1.0.151"
tokio = { version = "=1.53.2", features = ["rt-multi-thread", "macros", "time", "sync", "net"] }
tokio-tungstenite = "=0.30.0"
toml = "=1.1.7"
uuid = { version = "=1.27.0", features = ["v4", "serde"] }
