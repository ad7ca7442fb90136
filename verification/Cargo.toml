[package]
name = "grpm"
version = "0.1.0"
edition = "2021"
publish = false

[dependencies]
regex = "=1.13.1"
octocrab = "=0.47.1"
tokio = { version = "=1.53.2", features = ["rt-multi-thread"] }
crossterm = "=0.29.0"
pico-args = "=0.5.0"
