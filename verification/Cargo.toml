[package]
name = "winproc_tui"
version = "0.1.0"
edition = "2021"
publish = false

[dependencies]
ratatui = "0.29"
chrono = "0.4"
