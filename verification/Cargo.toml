[package]
name = "autopilot"
version = "0.1.0"
edition = "2021"
publish = false

[dependencies]
anyhow = "1"
clap = { version = "4", features = ["derive"] }
crossterm = "0.28"
jsonschema = { version = "*", default-features = false }
ratatui = "0.29"
serde = { version = "1", features = ["derive"] }
serde_json = "1"
serde_yaml2 = "*"
ssh2 = "0.9"
tokio = { version = "1", features = ["rt-multi-thread", "macros", "time", "sync"] }
whoami = "1.5"
