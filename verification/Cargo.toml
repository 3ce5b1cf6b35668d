[package]
name = "roxy-cli"
version = "0.1.0"
edition = "2021"
publish = false

[dependencies]
clap = { version = "4", features = ["derive"] }
colored = "2"
indicatif = "0.17"
open = "5"
path-clean = "1"
rand = "0.8"
reqwest = { version = "0.11", features = ["blocking"] }
serde_json = "1"
