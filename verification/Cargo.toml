[package]
name = "nudge"
version = "0.1.0"
edition = "2021"
publish = false

[dependencies]
clap = { version = "4", features = ["derive"] }
console = "0.15"
dialoguer = "0.11"
humansize = "2"
indicatif = "0.17"
serde = { version = "1", features = ["derive"] }
serde_json = "1"
