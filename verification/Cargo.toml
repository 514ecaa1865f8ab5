[package]
name = "llama-mgr"
version = "0.1.0"
edition = "2021"
publish = false

[dependencies]
clap = { version = "=4.6.7", features = ["derive"] }
env_logger = "=0.11.11"
exitcode = "=1.1.2"
log = "=0.4.34"
regex = "=1.13.1"
serde = { version = "=1.0.229", features = ["derive"] }
shellexpand = "=3.1.2"
thiserror = "=2.0.21"
toml = "=0.8.23"
which = "=7.0.3"
