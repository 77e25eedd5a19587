[package]
name = "minifmt"
version = "0.1.0"
edition = "2021"
publish = false

[dependencies]
proc-macro2 = "0.4"
syn = { version = "0.15", features = ["full"] }
