[package]
name = "mipsemu"
version = "0.1.0"
edition = "2021"
publish = false

[dependencies]
nix = { version = "*", features = ["user", "process", "time", "fs", "signal", "uio"] }
libc = "*"
goblin = "*"
flate2 = "*"
serde = { version = "*", features = ["derive"] }
serde_json = "*"
argparse = "*"
log = "*"
simplelog = "*"
