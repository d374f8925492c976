[package]
name = "moist_sensor"
version = "0.1.0"
edition = "2021"
publish = false

[dependencies]
toml = "=0.5.11"
memmap = "=0.7.0"
clap = "=2.34.0"
failure = "=0.1.8"
futures = "=0.1.31"
tokio = "=0.1.22"
tokio-signal = "=0.2.9"
tokio-timer = "=0.2.13"
lapin-futures = "=0.13.0"

[dev-dependencies]
serde_json = "=1.0.151"
