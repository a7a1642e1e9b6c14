[package]
name = "ghciwatch"
version = "0.1.0"
edition = "2021"
publish = false

[dependencies]
aho-corasick = "1"
camino = "1"
clearscreen = "2"
command-group = { version = "2", features = ["with-tokio"] }
miette = "5"
nix = { version = "0.26", default-features = false, features = ["process", "signal"] }
owo-colors = { version = "3", features = ["supports-colors"] }
tokio = { version = "1", features = ["full"] }
tracing = "0.1"
