[package]
name = "rkik"
version = "0.1.0"
edition = "2021"
publish = false

[dependencies]
rsntp = "*"
tokio = { version = "*", features = ["rt-multi-thread", "macros", "time", "signal", "sync"] }
futures = "*"
chrono = "*"
clap = { version = "*", features = ["derive"] }
console = "*"
serde = { version = "*", features = ["derive"] }
serde_json = "*"
toml = "*"
dirs = "*"
libc = "*"
