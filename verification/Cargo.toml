[package]
name = "breakout"
version = "0.1.0"
edition = "2021"
publish = false

[dependencies]
macroquad = { version = "0.4", default-features = false }
sapp-jsutils = "*"
