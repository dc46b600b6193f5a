[package]
name = "synthy"
version = "0.1.0"
edition = "2021"
publish = false

[dependencies]
wmidi = "4"
vst = "0.3"
fundsp = "*"
