[package]
name = "osc"
version = "0.1.0"
edition = "2021"
publish = false

[dependencies]
serde = { version = "1", features = ["derive"] }
serde_json = "1"
serde_yaml = "0.9"
regex = "1"
anyhow = "1"
clap = { version = "4", features = ["derive"] }
colored = "2"
colored_json = "3"
dialoguer = "0.10"
tempfile = "3"
sharedlib = "7"
libc = "0.2"
gag = "1"
log = "0.4"
env_logger = "0.10"
hyper = { version = "0.14", features = ["client", "http1", "runtime"] }
hyperlocal = "0.8"
tokio = { version = "1", features = ["rt-multi-thread", "macros"] }
