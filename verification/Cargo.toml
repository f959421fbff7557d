[package]
name = "rsfchat"
version = "0.1.0"
edition = "2021"
publish = false

[dependencies]
textwrap = "=0.16.4"
unicode-segmentation = "=1.13.3"
chrono = "=0.4.45"
crossterm = "=0.29.0"
ratatui = "=0.30.2"
