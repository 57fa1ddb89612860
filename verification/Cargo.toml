[package]
name = "dprox"
version = "0.1.0"
edition = "2021"
publish = false

[dependencies]
rand = "*"
clap = { version = "*", features = ["derive"] }
env_logger = "*"
log = "*"
serde = "*"
tokio = { version = "*", features = ["macros", "rt-multi-thread", "net", "io-util", "time"] }
tokio-tun = "*"
