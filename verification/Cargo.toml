[package]
name = "timelapse"
version = "0.1.0"
edition = "2021"
publish = false

[dependencies]
rusqlite = { version = "*", features = ["bundled"] }
chrono = "*"
dirs = "*"
image = { version = "*", default-features = false, features = ["png", "jpeg"] }

[dev-dependencies]
tempfile = "*"
