[package]
name = "connect_validation"
version = "0.1.0"
edition = "2021"
publish = false

[dependencies]
ahash = "=0.8.12"
apollo-compiler = "=1.33.1"
indexmap = "=2.14.2"
