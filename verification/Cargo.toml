[package]
name = "pinout"
version = "0.1.0"
edition = "2021"
publish = false

[dependencies]
anyhow = "1"
argh = "0.1"
chrono = "0.4"
lexpr = "0.2"
regex = "1"
