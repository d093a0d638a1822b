[package]
name = "fileman"
version = "0.1.0"
edition = "2021"
publish = false

[dependencies]
mime_guess = "2"
tokio = { version = "1", features = ["full"] }
anyhow = "1"
crossterm = "0.28"
ratatui = "0.29"
zip = "2"
