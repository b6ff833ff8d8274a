[package]
name = "northstar"
version = "0.1.0"
edition = "2021"
publish = false

[dependencies]
anyhow = "=1.0.104"
itertools = "=0.10.5"
log = "=0.4.34"
nix = "=0.22.3"
prettytable-rs = "=0.10.0"
thiserror = "=1.0.69"
tokio = { version = "=1.54.1", features = ["process", "rt", "sync", "time"] }
