[package]
name = "replace_types"
version = "0.1.0"
edition = "2021"
publish = false

[dependencies]
syn = { version = "2", features = ["full", "visit-mut", "extra-traits"] }
