[package]
name = "mumble_link"
version = "0.1.0"
edition = "2021"
publish = false

[dependencies]
widestring = "=1.2.1"
nix = { version = "=0.31.3", features = ["fs", "mman", "user"] }
