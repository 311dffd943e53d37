[package]
name = "gdext_bridge"
version = "0.1.0"
edition = "2021"
publish = false

[dependencies]
glam = "=0.22.0"
heck = "=0.4.1"
nanoserde = "=0.1.37"
proc-macro2 = "=1.0.107"
quote = "=1.0.47"
venial = "0.5"
