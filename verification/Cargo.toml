[package]
name = "tim2"
version = "0.1.0"
edition = "2021"
publish = false

[dependencies]
anyhow = "1"
crossterm = "0.28"
image = { version = "0.25", default-features = false }
log = "0.4"
ratatui = "0.29"
ron = "0.8"
serde = { version = "1", features = ["derive"] }
viuer = "0.9"
