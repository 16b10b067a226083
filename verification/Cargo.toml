[package]
name = "tydra"
version = "0.1.0"
edition = "2021"
publish = false

[dependencies]
serde = { version = "*", features = ["derive"] }
serde_yaml = "*"
structopt = "*"
termion = "*"
tui = { version = "*", default-features = false, features = ["termion"] }
nix = { version = "*", features = ["process", "signal"] }
