[package]
name = "whispering"
version = "0.1.0"
edition = "2021"
publish = false

[dependencies]
anyhow = "1"
clap = { version = "4", features = ["derive"] }
cpal = "0.15"
dirs = "6"
env_logger = "0.11"
hound = "3.5"
log = "0.4"
ndarray = "0.16"
ort = { version = "=2.0.0-rc.9", features = ["ndarray"] }
ringbuf = "=0.4.8"
samplerate = "0.2"
serde = { version = "1", features = ["derive"] }
thiserror = "2"
tokio = { version = "1", features = ["rt-multi-thread", "macros", "sync"] }
toml = "0.8"
