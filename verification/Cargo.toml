[package]
name = "mainboard"
version = "0.1.0"
edition = "2021"
publish = false

[dependencies]
embedded-hal = "=1.0.0"
embedded-hal-nb = "=1.0.0"
embedded-hal-bus = "=0.3.0"
mcp23017-tp = { version = "=0.1.1", features = ["pinmode"] }
aarch64-cpu = "=11.2.0"
