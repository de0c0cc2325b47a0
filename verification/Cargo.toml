[package]
name = "mega"
version = "0.1.0"
edition = "2021"
publish = false

[dependencies]
rustix = { version = "*", features = ["termios"] }
termios = "0.3"
