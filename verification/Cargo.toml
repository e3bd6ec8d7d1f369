[package]
name = "articulator"
version = "0.1.0"
edition = "2021"
publish = false

[dependencies]
iron = "0.6"
router = "0.6"
logger = "0.4"
rustc-serialize = "0.3"
walkdir = "2"
horrorshow = "0.8"
docopt = "1"
