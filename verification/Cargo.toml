[package]
name = "pipewire_connection"
version = "0.1.0"
edition = "2021"
publish = false

[dependencies]
async-channel = "2"
calloop = "0.12"
gtk4 = "0.3"
log = "0.4"
nix = { version = "0.26", default-features = false, features = ["hostname", "process", "user"] }
pipewire = "0.4"
