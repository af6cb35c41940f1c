[package]
name = "ttd"
version = "0.1.0"
edition = "2021"
publish = false

[dependencies]
anyhow = "1"
bitflags = "2"
derive_more = { version = "1", features = ["display", "from"] }
env_logger = "0.11"
log = "0.4"
windows = "0.58"
zydis = "4"
