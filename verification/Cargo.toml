[package]
name = "generic_arrayvec"
version = "0.3.1"
edition = "2021"
publish = false

[dependencies]
arrayvec = { version = "0.5", default-features = false }
generic-array = "0.14"
