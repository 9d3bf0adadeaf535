[package]
name = "r55"
version = "0.1.0"
edition = "2021"
publish = false

[dependencies]
alloy-primitives = "0.8"
eyre = "0.6"
glob = "0.3"
goblin = "*"
revm = { version = "14", default-features = false, features = ["std"] }
rvemu = "*"
syn = { version = "1", features = ["full"] }
toml = "0.8"
