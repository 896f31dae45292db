[package]
name = "webvy"
version = "0.1.0"
edition = "2021"
publish = false

[dependencies]
toml = "=1.1.7"
pulldown-cmark = "=0.13.4"
smol = "=2.0.2"
event-listener = "=5.4.2"
bevy_tasks = { version = "=0.19.1", features = ["multi_threaded"] }
log = "=0.4.34"
env_logger = "=0.11.11"
futures-concurrency = "=7.7.1"
thiserror = "=2.0.21"
