[package]
name = "transcribers"
version = "0.1.0"
edition = "2021"
publish = false

[dependencies]
anyhow = "=1.0.104"
axum = "=0.8.9"
axum-extra = { version = "=0.12.6", features = ["multipart"] }
candle-core = "=0.9.2"
clap = { version = "=4.6.7", features = ["derive"] }
hound = "=3.5.1"
serde = { version = "=1.0.229", features = ["derive"] }
serde_json = "=1.0.154"
speakers-core = "=0.2.0"
speakers-qwen3-tts = { version = "=0.3.0", features = ["hub"] }
tokio = { version = "=1.54.1", features = ["full"] }
toml = "=0.8.23"
tower-http = { version = "=0.7.1", features = ["cors"] }
tracing = "=0.1.44"
tracing-subscriber = { version = "=0.3.23", features = ["env-filter"] }
whisper-rs = "=0.16.0"
