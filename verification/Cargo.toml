[package]
name = "order_taking"
version = "0.1.0"
edition = "2021"
publish = false

[dependencies]
anyhow = "1"
rust_decimal = "1"
