[package]
name = "embedded_recruitment_task"
version = "0.1.0"
edition = "2021"
publish = false

[dependencies]
prost = "0.13"
tokio = { version = "1", features = ["net", "io-util", "rt-multi-thread", "macros", "time", "sync"] }
log = "0.4"
env_logger = "0.11"
