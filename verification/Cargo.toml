[package]
name = "examine"
version = "0.1.0"
edition = "2021"
publish = false

[dependencies]
etc-os-release = { version = "=0.1.1", features = ["url", "date"] }
itertools = "=0.15.0"
open = "=5.4.5"
log = "=0.4.35"
