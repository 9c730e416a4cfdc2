[package]
name = "chostty"
version = "0.1.0"
edition = "2021"
publish = false

[dependencies]
serde = { version = "1", features = ["derive"] }
serde_json = "1"
tokio = { version = "1", features = ["rt-multi-thread", "net", "io-util", "macros", "sync"] }
anyhow = "1"
clap = { version = "4", features = ["derive"] }
dirs = "*"
libc = "0.2"
