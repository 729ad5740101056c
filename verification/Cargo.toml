[package]
name = "nvml_native"
version = "0.1.0"
edition = "2021"
publish = false

[dependencies]
nvml-wrapper = "*"
rustler = "*"
