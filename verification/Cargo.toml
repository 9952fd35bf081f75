[package]
name = "neet"
version = "0.1.0"
edition = "2021"
publish = false

[dependencies]
tokio = { version = "=1.53.2", features = ["sync", "rt", "rt-multi-thread", "macros", "signal"] }
bytes = "=1.12.1"
moq-lite = "=0.16.3"
url = "=2.5.8"
web-transport-quinn = "=0.11.12"
anyhow = "=1.0.104"
clap = { version = "=4.6.7", features = ["derive"] }
tracing = "=0.1.44"
tracing-subscriber = { version = "=0.3.23", features = ["env-filter"] }
