[package]
name = "talpid-tunnel"
version = "0.1.0"
edition = "2021"
publish = false

[dependencies]
duct = "0.13"
nix = "0.23"
thiserror = "1"
tun = "0.5"
