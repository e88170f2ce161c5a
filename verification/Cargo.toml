[package]
name = "lax"
version = "0.1.0"
edition = "2021"
publish = false

[dependencies]
cauchy = "0.4"
lapack = "0.19"
num-traits = "0.2"
