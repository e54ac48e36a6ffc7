[package]
name = "nviwatch"
version = "0.1.0"
edition = "2021"
publish = false

[dependencies]
nvml-wrapper = "*"
procfs = "*"
nix = { version = "*", features = ["signal", "user"] }
clap = "*"
crossterm = "*"
ratatui = "*"
textwrap = "*"
