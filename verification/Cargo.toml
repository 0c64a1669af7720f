[package]
name = "ordinal"
version = "0.2.3"
edition = "2021"
publish = false

[dependencies]
num-integer = "0.1"

[dev-dependencies]
num-bigint = "0.4"
num-traits = "0.2"
