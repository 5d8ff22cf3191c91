[package]
name = "laios"
version = "0.1.0"
edition = "2021"
publish = false

[dependencies]
ash = "0.29"
winit = "0.19"
