[package]
name = "littleflow"
version = "0.1.0"
edition = "2021"
publish = false

[dependencies]
half = "2"
num-traits = "0.2"
rand = "0.9"
