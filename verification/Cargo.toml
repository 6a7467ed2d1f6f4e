[package]
name = "ghastly"
version = "0.1.0"
edition = "2021"
publish = false

[dependencies]
marked-yaml = "*"
clap = { version = "*", features = ["derive"] }
termimad = "*"
