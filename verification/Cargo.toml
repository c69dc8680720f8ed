[package]
name = "ascii_factory"
version = "0.1.0"
edition = "2021"
publish = false

[dependencies]
bevy = { version = "=0.8.1", default-features = false }
bracket-terminal = { version = "=0.8.7", default-features = false, features = ["cross_term"] }
bracket-noise = "=0.8.7"
iyes_loopless = "=0.7.1"
rand = "=0.8.8"
