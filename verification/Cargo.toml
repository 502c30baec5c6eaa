[package]
name = "session_launcher"
version = "0.1.0"
edition = "2021"
publish = false

[dependencies]
nix = { version = "*", features = ["process"] }
clap = { version = "*", features = ["derive"] }
