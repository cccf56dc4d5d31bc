[package]
name = "atb"
version = "0.1.0"
edition = "2021"
publish = false

[dependencies]
jsonwebtoken = "=9.3.1"
base64 = "=0.22.1"
sha2 = "=0.10.9"
rand = "=0.9.5"
serde = { version = "=1.0.229", features = ["derive"] }
serde_json = "=1.0.154"
chrono = "=0.4.45"
uuid = { version = "=1.29.0", features = ["v4", "serde"] }
tokio = { version = "=1.54.1", features = ["sync", "time", "rt", "rt-multi-thread", "macros"] }
futures = "=0.3.34"
actix-web = { version = "=4.18.1", default-features = false, features = ["cookies", "macros", "ws"] }
actix = "=0.13.5"
actix-web-actors = "=4.3.1"
time = "=0.3.55"
clap = { version = "=4.6.7", features = ["derive", "env"] }
once_cell = "=1.21.4"
reqwest = { version = "=0.12.28", default-features = false, features = ["json", "stream"] }
eventsource-stream = "=0.2.3"
tokio-stream = "=0.1.19"
async-stream = "=0.3.6"
thiserror = "=1.0.69"
log = "=0.4.35"
anyhow = "=1.0.104"
tracing = "=0.1.44"
tracing-subscriber = { version = "=0.3.23", features = ["fmt", "json", "env-filter"] }
tracing-appender = "=0.2.5"
derive_builder = "=0.20.2"
async-trait = "=0.1.92"
env_logger = "0.11"
ansi_term = "0.12"
