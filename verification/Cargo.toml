[package]
name = "rocket_ts"
version = "0.1.0"
edition = "2021"
publish = false

[dependencies]
clap = { version = "4", features = ["derive"] }
env_logger = "0.10"
log = "0.4"
proc-macro2 = "1"
quote = "1"
syn = { version = "1", features = ["full", "visit"] }
