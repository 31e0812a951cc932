[package]
name = "tinyfw"
version = "0.1.0"
edition = "2021"
publish = false

[dependencies]
anyhow = "*"
aya = "=0.14.0"
clap = { version = "*", features = ["derive"] }
containerd-client = "=0.2.0"
env_logger = "*"
log = "*"
network-interface = "=2.0.5"
tokio = { version = "*", features = ["macros", "rt-multi-thread", "signal"] }
