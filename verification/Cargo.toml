[package]
name = "scl3"
version = "0.1.0"
edition = "2021"
publish = false

[dependencies]
anyhow = "=1.0.104"
clapfig = "=0.20.1"
confique = "=0.4.0"
dirs = "=6.0.0"
image = { version = "=0.25.10", default-features = false, features = ["png"] }
keyring = "=3.6.3"
serde = { version = "=1.0.229", features = ["derive"] }
slint = { version = "=1.18.1", default-features = false, features = ["std", "compat-1-2"] }
tokio = { version = "=1.54.1", features = ["rt-multi-thread", "time"] }
toml = "=0.9.12"
tracing = "=0.1.44"
tracing-appender = "=0.2.5"
tracing-subscriber = { version = "=0.3.23", features = ["env-filter"] }
