[package]
name = "bot_lib"
version = "0.1.0"
edition = "2021"
publish = false

[dependencies]
chrono = "0.4"
color-eyre = "0.6"
crossbeam-channel = "0.5"
itertools = "0.13"
notify = "6"
parking_lot = "0.12"
poise = "0.6"
rand = "0.8"
regex = "1"
serde = { version = "1", features = ["derive"] }
serde_with = { version = "3", features = ["chrono_0_4"] }
tokio = { version = "1", features = ["sync", "rt"] }
toml = "0.8"
tracing = "0.1"
