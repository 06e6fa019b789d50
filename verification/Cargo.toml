[package]
name = "arstyper"
version = "0.1.0"
edition = "2021"
publish = false

[dependencies]
rand = "*"
ratatui = "*"
chrono = "*"
dirs = "*"
strum = { version = "*", features = ["derive"] }
