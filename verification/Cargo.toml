[package]
name = "vector2"
version = "0.1.0"
edition = "2021"
publish = false

[dependencies]
num-traits = "*"
serde = "*"
serde_derive = "*"
