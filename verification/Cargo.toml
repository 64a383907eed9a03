[package]
name = "stock_calc"
version = "1.0.0"
edition = "2021"
publish = false

[dependencies]
chrono = { version = "0.4", features = ["serde"] }
clap = { version = "4", features = ["derive"] }
colored = "2"
config = { version = "0.14", default-features = false, features = ["toml"] }
dirs = "5"
env_logger = "0.11"
log = "0.4"
notify-rust = "4"
regex = "1"
reqwest = { version = "0.12", default-features = false }
serde = { version = "1", features = ["derive"] }
serde_json = "1"
thiserror = "1"
tokio = { version = "1", features = ["macros", "rt-multi-thread", "time", "process"] }
toml = "0.8"
