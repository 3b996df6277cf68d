[package]
name = "mma8x5x"
version = "0.1.0"
edition = "2021"
publish = false

[dependencies]
embedded-hal = "1"
