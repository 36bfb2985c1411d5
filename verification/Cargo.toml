[package]
name = "pipe_resolver"
version = "0.1.0"
edition = "2021"
publish = false

[dependencies]
url = "2"
reqwest = { version = "0.12", default-features = false, features = ["rustls-tls"] }
tokio = { version = "1", features = ["rt-multi-thread", "macros"] }
tempfile = "3"
clap = { version = "4", features = ["derive"] }
log = "0.4"
env_logger = "0.11"
