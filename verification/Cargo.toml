[package]
name = "rvterminal"
version = "0.1.0"
edition = "2021"
publish = false

[dependencies]
crossterm = "*"
evdev = "*"
rusb = "*"
reqwest = { version = "*", default-features = false, features = ["blocking", "json"] }
serde = { version = "*", features = ["derive"] }
