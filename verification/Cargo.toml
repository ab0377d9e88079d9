[package]
name = "asciinema"
version = "0.1.0"
edition = "2021"
publish = false

[dependencies]
anyhow = "1"
clap = { version = "4", features = ["derive"] }
mio = { version = "0.8", features = ["os-poll", "os-ext"] }
nix = { version = "0.27", features = ["fs", "ioctl", "process", "signal", "term"] }
signal-hook = "0.3"
signal-hook-mio = { version = "0.2", features = ["support-v0_8"] }
termion = "*"
