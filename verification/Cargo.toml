[package]
name = "ddstats_rust"
version = "0.6.10"
edition = "2021"
publish = false

[dependencies]
regex = "=1.13.1"
md5 = "=0.7.0"
aes = "=0.7.5"
block-modes = "=0.8.1"
base32 = "=0.4.0"
ring = "=0.16.20"
ddcore-rs = { version = "=0.3.5", features = ["memory", "ddinfo", "ddreplay", "ddcl_submit"] }
serde = { version = "=1.0.229", features = ["derive"] }
serde_json = "=1.0.154"
ron = "=0.7.1"
obake = "=1.0.5"
tokio = { version = "=1.54.1", features = ["full"] }
anyhow = "=1.0.104"
log = "=0.4.35"
lazy_static = "=1.5.1"
arc-swap = "=1.9.3"
num-traits = "=0.2.19"
clap = "=3.2.25"
crossterm = "=0.25.0"
tui = "=0.19.0"
futures = "=0.3.34"
hyper = { version = "=0.14.32", features = ["full"] }
hyper-tls = "=0.5.0"
native-tls = "=0.2.18"
warp = "=0.3.7"
tokio-stream = "=0.1.19"
discord-rich-presence = "=0.1.8"
ctrlc = "=3.5.2"
websocket = "=0.26.5"
clipboard = "=0.5.0"
