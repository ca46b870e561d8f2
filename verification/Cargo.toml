[package]
name = "rns_tun"
version = "0.1.0"
edition = "2021"
publish = false

[dependencies]
clap = { version = "=4.6.7", features = ["derive"] }
env_logger = "=0.11.11"
ipnet = { version = "=2.12.2", features = ["serde"] }
log = "=0.4.34"
nix = "=0.23.2"
reticulum = "=0.1.0"
riptun = { version = "=0.1.4", features = ["tokio"] }
serde = { version = "=1.0.229", features = ["derive"] }
tokio = { version = "=1.53.2", features = ["macros", "rt-multi-thread", "sync", "signal", "time"] }
toml = "=1.1.7"
