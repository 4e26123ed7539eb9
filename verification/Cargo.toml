[package]
name = "screen_wars"
version = "0.1.0"
edition = "2021"
publish = false

[dependencies]
pinocchio = "=0.9.3"
pinocchio-system = "=0.4.0"
pinocchio-pubkey = "=0.3.0"
