[package]
name = "rubato_downsampler"
version = "0.1.0"
edition = "2021"
publish = false

[dependencies]
rubato = "0.16"
