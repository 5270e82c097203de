[package]
name = "chatshell"
version = "0.1.0"
edition = "2021"
publish = false

[dependencies]
anyhow = "*"
chrono = "*"
clap = "*"
crossterm = "*"
futures = "*"
nix = "=0.25.1"
reqwest = { version = "*", default-features = false, features = ["json"] }
serde = { version = "*", features = ["derive"] }
serde_json = "*"
signal-hook = "*"
signal-hook-tokio = { version = "*", features = ["futures-v0_3"] }
tokio = { version = "*", features = ["full"] }
toml = "*"
uuid = { version = "*", features = ["v4"] }
