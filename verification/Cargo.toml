[package]
name = "derive_getters"
version = "0.3.0"
edition = "2021"
publish = false

[dependencies]
proc-macro2 = "1.0"
quote = "1.0"
syn = "2.0"
