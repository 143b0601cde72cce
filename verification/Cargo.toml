[package]
name = "m6502"
version = "0.1.0"
edition = "2021"

[dependencies]
rand = "=0.10.3"
ggez = { version = "=0.9.3", default-features = false }
