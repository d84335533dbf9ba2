[package]
name = "drink"
version = "0.1.0"
edition = "2021"
publish = false

[dependencies]
frame-support = "=49.0.0"
sp-core = "=43.0.0"
sp-externalities = "=0.34.0"
sp-io = "=49.0.0"
sp-state-machine = "=0.54.0"
