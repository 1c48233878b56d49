[package]
name = "rp2350_sim"
version = "0.1.0"
edition = "2021"
publish = false

[dependencies]
anyhow = "1"
bilge = "*"
byteorder = "1"
num-traits = "0.2"
