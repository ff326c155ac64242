[package]
name = "ubuntu_optimizer"
version = "0.1.0"
edition = "2021"
publish = false

[dependencies]
crossterm = "0.28"
libc = "0.2"
ratatui = "0.29"
serde = { version = "1", features = ["derive"] }
