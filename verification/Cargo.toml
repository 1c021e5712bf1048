[package]
name = "triops"
version = "0.1.0"
edition = "2021"
publish = false

[dependencies]
elf = "=0.8.0"
anyhow = "=1.0.104"
clap = { version = "=4.6.7", features = ["derive"] }
crossterm = "=0.29.0"
ratatui = "=0.30.2"
addr2line = "*"
