[package]
name = "integration_tests"
version = "0.1.0"
edition = "2021"
publish = false

[dependencies]
lazy_static = "1"
reqwest = { version = "*", default-features = false, features = ["blocking"] }
