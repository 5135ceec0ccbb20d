[package]
name = "cargo_jump"
version = "0.1.0"
edition = "2021"
publish = false

[dependencies]
toml_edit = "*"
anyhow = "*"
cargo_metadata = "*"
clap = { version = "*", features = ["derive"] }
tracing = "*"
tracing-subscriber = "*"
