[package]
name = "noise_gate"
version = "0.1.0"
edition = "2021"
publish = false

[dependencies]
dasp = "0.11"
