[package]
name = "xcursorlocate"
version = "0.1.0"
edition = "2021"
publish = false

[dependencies]
confy = "0.4"
serde = { version = "1", features = ["derive"] }
xcb = "0.9"
