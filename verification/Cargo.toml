[package]
name = "wttr"
version = "1.0.0"
edition = "2021"
publish = false

[dependencies]
anyhow = "1"
clap = { version = "4", features = ["derive"] }
home = "0.5"
jq-rs = "0.4"
reqwest = { version = "0.12", features = ["blocking"] }
serde_json = "1"
