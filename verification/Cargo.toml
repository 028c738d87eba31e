[package]
name = "tcpfwd"
version = "0.1.0"
edition = "2021"
publish = false

[dependencies]
tokio = { version = "1", features = ["rt-multi-thread", "net", "io-util", "macros"] }
log = "0.4"
env_logger = "0.11"
structopt = "0.3"
socket2 = "0.5"
