[package]
name = "mlcheck"
version = "0.1.0"
edition = "2021"
publish = false

[dependencies]
anyhow = "1"
chrono = "0.4"
clap = { version = "4", features = ["derive"] }
clap-verbosity-flag = "*"
colored = "2"
env_logger = "*"
log = "0.4"
rusqlite = "*"
uuid = { version = "1", features = ["v4"] }
