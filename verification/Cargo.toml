[package]
name = "dev-ci"
version = "0.9.0"
edition = "2021"
publish = false

[dependencies]
clap = { version = "4", features = ["derive"] }
