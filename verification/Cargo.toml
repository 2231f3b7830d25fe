[package]
name = "telemetry_kit"
version = "0.1.0"
edition = "2021"
publish = false

[dependencies]
chrono = "0.4"
regex = "1"
quick-xml-to-json = "*"
serde = { version = "1", features = ["derive"] }
serde_json = "1"
clap = { version = "4", features = ["derive"] }
csv = "1"
hound = "3"
crossbeam-channel = "0.5"
rtrb = "0.3"
ctrlc = "3"
anyhow = "1"
log = "0.4"
env_logger = "*"
cpal = "0.15"
