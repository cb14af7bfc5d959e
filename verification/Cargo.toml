[package]
name = "alloy"
version = "0.1.0"
edition = "2021"
publish = false

[dependencies]
id3 = "1"
rodio = "0.17"
ratatui = "0.26"
crossterm = "0.27"
