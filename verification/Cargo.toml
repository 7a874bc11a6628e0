[package]
name = "remote_shell"
version = "0.1.0"
edition = "2021"
publish = false

[dependencies]
itertools = "*"
bufstream = "*"
clap = { version = "*", features = ["derive"] }
env_logger = "*"
log = "*"
native-tls = "*"
uuid = { version = "*", features = ["v4"] }
