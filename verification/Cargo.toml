[package]
name = "welch_sde"
version = "0.1.0"
edition = "2021"
publish = false

[dependencies]
rustfft = "*"
num-complex = "*"
num-traits = "*"
