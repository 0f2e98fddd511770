[package]
name = "rsbash"
version = "0.1.0"
edition = "2021"
publish = false

[dependencies]
shell-words = "=1.1.1"
subprocess = "=0.2.15"

[dev-dependencies]
tempfile = "=3.27.0"
