[package]
name = "n64_game"
version = "0.1.0"
edition = "2021"
publish = false

[dependencies]
hashbrown = "0.15"
spin = "0.9"
