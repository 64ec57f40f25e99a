[package]
name = "datapack"
version = "0.1.0"
edition = "2021"
publish = false

[dependencies]
flate2 = "1"
named-binary-tag = "0.6"
zip = { version = "0.6", default-features = false }
