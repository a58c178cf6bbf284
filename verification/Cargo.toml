[package]
name = "code_goat"
version = "0.1.0"
edition = "2021"
publish = false

[dependencies]
nix = { version = "=0.28.0", features = ["fs", "mount", "process", "resource", "sched", "signal", "user"] }
cgroups-rs = "=0.4.0"
serde = { version = "1", features = ["derive"] }
serde_json = "1"
log = "0.4"
thiserror = "2"
parking_lot = "0.12"
tracing-subscriber = { version = "0.3", features = ["fmt", "registry"] }
env_logger = "0.11"
