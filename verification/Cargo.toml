[package]
name = "pa-proto"
version = "0.1.0"
edition = "2021"
publish = false

[dependencies]
byteorder = "1"
bytes = "0.4"
rand = "0.8"
log = "0.4"
env_logger = "0.10"
tokio = "0.1"
tokio-codec = "0.1"
tokio-uds = "0.2"
nix = { version = "0.29", features = ["socket", "uio"] }
tempfile = "3"
