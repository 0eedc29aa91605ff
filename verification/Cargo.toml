[package]
name = "generic_path"
version = "0.1.0"
edition = "2021"
publish = false

[dependencies]
syn = { version = "=0.14.9", default-features = false, features = ["full", "extra-traits"] }
