[package]
name = "serde_attributes"
version = "0.1.0"
edition = "2021"
publish = false

[dependencies]
darling_core = "0.14"
serde-rename-rule = "*"
syn = "1"
