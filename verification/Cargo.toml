[package]
name = "full_moon"
version = "0.1.0"
edition = "2021"
publish = false

[dependencies]
derive_more = "0.99"
