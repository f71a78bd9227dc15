[package]
name = "rasm"
version = "0.0.1"
edition = "2021"
publish = false

[dependencies]
anstyle = "1"
anyhow = "1"
clap = { version = "4", features = ["derive"] }
serde = { version = "1", features = ["derive"] }
termcolor = "1"
toml = "0.8"
walkdir = "2"
