[package]
name = "float_fuzzer"
version = "0.1.0"
edition = "2021"
publish = false

[dependencies]
anyhow = "1"
rand_chacha = "0.3"
wasmer = { version = "4", features = ["singlepass"] }
