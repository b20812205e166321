[package]
name = "jtrace"
version = "0.1.0"
edition = "2021"
publish = false

[dependencies]
clap = "2.34"
libc = "0.2"
log = "0.4"
nix = { version = "0.29", features = ["process", "ptrace", "signal"] }
regex = "1"
serde = { version = "1", features = ["derive"] }
serde_json = "1"
