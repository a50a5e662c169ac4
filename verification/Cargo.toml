[package]
name = "warp_supervisor"
version = "0.1.0"
edition = "2021"
publish = false

[dependencies]
clap = { version = "4", features = ["derive"] }
env_logger = "0.11"
log = "0.4"
reqwest = "0.12"
tokio = { version = "1", features = ["macros", "process", "rt-multi-thread", "signal", "time"] }
