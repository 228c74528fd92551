[package]
name = "resolvconffs"
version = "0.1.0"
edition = "2021"
publish = false

[dependencies]
nix = "=0.24.3"
libc = "=0.2.190"
fuser = { version = "=0.11.1", default-features = false }
gumdrop = "=0.8.1"
env_logger = "=0.9.3"
