[package]
name = "rusdle"
version = "0.1.0"
edition = "2021"
publish = false

[dependencies]
chrono = "0.4"
clap = { version = "3", features = ["derive"] }
crossterm = "0.23"
rand = "0.8"
