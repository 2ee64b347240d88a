[package]
name = "smartthings_tools_rs"
version = "0.1.0"
edition = "2021"
publish = false

[dependencies]
serde = { version = "1", features = ["derive"] }
serde_json = "1"
schemars = "0.8"
ureq = { version = "2", features = ["json"] }
clap = { version = "4", features = ["derive"] }
dotenvy = "0.15"
