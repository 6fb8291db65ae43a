[package]
name = "deploy"
version = "0.1.0"
edition = "2021"
publish = false

[dependencies]
sha1 = "*"
anyhow = "*"
crossterm = "*"
flate2 = "*"
futures = "*"
ratatui = "*"
russh = "*"
russh-sftp = "*"
serde = { version = "*", features = ["derive"] }
serde_json = "*"
tar = "*"
tempfile = "*"
tokio = { version = "*", features = ["rt-multi-thread", "macros", "fs", "io-util", "time"] }
tokio-util = { version = "*", features = ["io"] }
