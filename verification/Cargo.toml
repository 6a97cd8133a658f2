[package]
name = "cref"
version = "0.1.0"
edition = "2021"
publish = false

[dependencies]
docopt = "1.1.1"
env_logger = "*"
hyper = "0.10.16"
log = "*"
rustbox = "*"
rustc-serialize = "0.3.25"
sqlite3 = "*"
