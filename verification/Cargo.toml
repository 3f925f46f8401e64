[package]
name = "sherpa_server"
version = "0.1.0"
edition = "2021"
publish = false

[dependencies]
regex = "1"
jiff = "0.2"
jsonwebtoken = "9"
serde = { version = "1", features = ["derive"] }
serde_json = "1"
anyhow = "1"
clap = { version = "4", features = ["derive"] }
nix = { version = "0.29", features = ["signal"] }
