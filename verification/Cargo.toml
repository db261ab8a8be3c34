[package]
name = "line_ui"
version = "0.1.0"
edition = "2021"
publish = false

[dependencies]
unicode-width = "*"
termion = "*"
serde = { version = "*", features = ["derive"] }
either = "*"
