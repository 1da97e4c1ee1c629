[package]
name = "mm"
version = "0.2.0"
edition = "2021"
publish = false

[dependencies]
anyhow = "1"
clap = { version = "4", features = ["derive"] }
colored = "2"
dirs = "5"
regex = "1"
serde = { version = "1", features = ["derive"] }
toml_edit = { version = "0.22", features = ["serde"] }
walkdir = "2"
