[package]
name = "pricklybird"
version = "1.0.0"
edition = "2021"
publish = false

[dependencies]
clap = { version = "4", features = ["derive", "cargo"] }
