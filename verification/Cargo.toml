[package]
name = "rperf"
version = "0.1.0"
edition = "2021"
publish = false

[dependencies]
anyhow = "1"
clap = "2.33"
core_affinity = "0.8"
ctrlc = "3"
env_logger = "0.10"
log = "0.4"
mio = "0.6"
serde_json = "1"
simple-error = "0.3"
uuid = { version = "1", features = ["v4"] }
