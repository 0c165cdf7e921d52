[package]
name = "asr_lso_bridge"
version = "0.1.0"
edition = "2021"
publish = false

[dependencies]
anyhow = "1"
clap = { version = "4", features = ["derive"] }
livesplit-auto-splitting = "=0.1.0"
log = "0.4"
pretty_env_logger = "0.5"
serde = "1"
serde_derive = "1"
serde_json = "1"
toml = "=1.1.8"
tungstenite = "=0.30.0"
