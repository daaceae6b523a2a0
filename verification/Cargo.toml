[package]
name = "crier"
version = "0.1.0"
edition = "2021"
publish = false

[dependencies]
atom_syndication = "*"
chrono = "*"
clap = "*"
env_logger = "*"
itertools = "*"
log = "*"
rs_sha512 = "*"
rss = "*"
uuid = { version = "*", features = ["v4"] }
