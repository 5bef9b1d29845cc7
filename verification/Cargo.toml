[package]
name = "process_ctl"
version = "0.1.0"
edition = "2021"
publish = false

[dependencies]
nix = { version = "*", features = ["signal", "process"] }
serde = "1"
serde_derive = "1"
clap = "2"
