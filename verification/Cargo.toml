[package]
name = "crlf2lf"
version = "0.1.0"
edition = "2021"
publish = false

[dependencies]
anyhow = "1"
binaryornot = "1"
clap = { version = "4", features = ["derive"] }
env_logger = "0.11"
log = "0.4"
walkdir = "2"

[dev-dependencies]
tempfile = "3"
