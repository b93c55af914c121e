[package]
name = "fabrexlens"
version = "0.1.0"
edition = "2021"
publish = false

[dependencies]
anyhow = "1"
clap = { version = "4", features = ["derive"] }
config = { version = "0.14", default-features = false, features = ["toml", "json", "yaml"] }
crossbeam-channel = "0.5"
dialoguer = "0.11"
directories = "5"
eframe = { version = "0.31", default-features = false, features = ["glow", "default_fonts"] }
keyring = { version = "3", features = ["apple-native", "windows-native", "linux-native"] }
reqwest = { version = "0.12", default-features = false, features = ["json", "rustls-tls"] }
serde = { version = "1", features = ["derive"] }
serde_json = "1"
thiserror = "1"
tokio = { version = "1", features = ["rt-multi-thread", "macros", "time", "sync"] }
url = "2"
