[package]
name = "vulkanoob"
version = "0.1.0"
edition = "2021"
publish = false

[dependencies]
failure = "0.1"
log = "0.4"
vulkano = "0.10"
