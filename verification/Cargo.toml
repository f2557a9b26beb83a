[package]
name = "flashfuzz_tui"
version = "0.1.0"
edition = "2021"
publish = false

[dependencies]
serde_json = "1"
ratatui = "0.29"
crossterm = "0.28"
libc = "0.2"
