[package]
name = "sdrrat"
version = "0.1.0"
edition = "2021"
publish = false

[dependencies]
confy = "=2.0.0"
crossbeam-channel = "=0.5.17"
crossterm = "=0.29.0"
libc = "=0.2.191"
ratatui = "=0.30.2"
serde = { version = "=1.0.229", features = ["derive"] }
