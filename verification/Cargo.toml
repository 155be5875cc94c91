[package]
name = "pomo"
version = "0.1.0"
edition = "2021"
publish = false

[dependencies]
bincode = "1.3"
clap = { version = "4", features = ["derive"] }
dirs = "*"
lockfile = "*"
serde = { version = "1", features = ["derive"] }
toml = "*"
