[package]
name = "dotwell"
version = "0.1.0"
edition = "2021"
publish = false

[dependencies]
color-eyre = "0.6"
crossterm = "0.28"
dirs = "5"
ratatui = "0.29"
serde_json = "1"
toml = "0.8"
