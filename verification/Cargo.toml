[package]
name = "cmdpiped"
version = "0.1.0"
edition = "2021"
publish = false

[dependencies]
tokio = { version = "1", features = ["sync", "macros", "rt-multi-thread", "io-util", "io-std", "process", "time"] }
actix-web = "4"
actix-files = "0.6"
actix-ws = "*"
clap = { version = "4", features = ["derive"] }
env_logger = "*"
futures = "0.3"
log = "0.4"
tokio-process-stream = "*"
