[package]
name = "linux_cec"
version = "0.1.0"
edition = "2021"
publish = false

[dependencies]
tinyvec = "=1.13.3"
nix = { version = "=0.29.0", features = ["ioctl", "poll", "fs"] }
strum = { version = "0.26", features = ["derive"] }
