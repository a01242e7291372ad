[package]
name = "svn_dash"
version = "0.1.0"
edition = "2021"
publish = false

[dependencies]
chrono = "*"
clap = { version = "*", features = ["derive"] }
color-eyre = "*"
crossterm = "*"
ratatui = "*"
serde = { version = "*", features = ["derive"] }
toml = "*"
