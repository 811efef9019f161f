[package]
name = "ssgtk_core"
version = "0.1.0"
edition = "2021"
publish = false

[dependencies]
clap = { version = "*", features = ["derive"] }
crossbeam-channel = "*"
json5 = "*"
nix = { version = "*", features = ["process", "signal"] }
serde = { version = "*", features = ["derive"] }
serde_yaml = "*"
