[package]
name = "probability_gomoku"
version = "0.1.0"
edition = "2021"

[dependencies]
rand = "0.8"
macroquad = { version = "0.4", default-features = false }
miniquad = "0.4"
