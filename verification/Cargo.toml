[package]
name = "beam_driver"
version = "0.1.0"
edition = "2021"
publish = false

[dependencies]
camino = "1"
tracing = "0.1"
