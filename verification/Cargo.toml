[package]
name = "pathogen"
version = "0.1.0"
edition = "2021"
publish = false

[dependencies]
ahash = "*"
serde = { version = "*", features = ["derive"] }
serde_json = "*"
clap = "*"
chrono = "*"
tempfile = "*"
walkdir = "*"
