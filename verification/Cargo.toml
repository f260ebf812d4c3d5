[package]
name = "smtc2web"
version = "0.1.0"
edition = "2021"
publish = false

[dependencies]
serde = { version = "1", features = ["derive"] }
serde_json = "1"
toml = "0.8"
dirs = "*"
notify = "*"
open = "*"
named-lock = "0.4"
tokio = { version = "1", features = ["rt-multi-thread", "sync", "macros"] }
warp = "0.3"
