[package]
name = "max31855"
version = "0.1.0"
edition = "2021"
publish = false

[dependencies]
bit_field = "0.10"
embedded-hal = "1.0"
embedded-hal-async = "1.0"
