[package]
name = "ipipe"
version = "0.1.0"
edition = "2021"
publish = false

[dependencies]
nix = { version = "0.26", features = ["fs", "term", "process"] }
rand = "0.8"
flurry = "0.5"
lazy_static = "1"
tokio = { version = "1", features = ["rt", "sync"] }
