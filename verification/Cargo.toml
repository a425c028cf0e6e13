[package]
name = "carapace"
version = "0.1.0"
edition = "2021"
publish = false

[dependencies]
clap = { version = "*", features = ["derive"] }
nix = { version = "*", features = ["sched", "mount", "hostname", "process", "fs", "user"] }
