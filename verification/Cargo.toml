[package]
name = "kasa_console"
version = "0.1.0"
edition = "2021"
publish = false

[dependencies]
anyhow = "1"
clap = { version = "4", features = ["derive"] }
crossterm = "=0.28.1"
ratatui = "=0.29.0"
