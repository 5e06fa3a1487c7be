[package]
name = "swiftlingo"
version = "0.1.0"
edition = "2021"
publish = false

[dependencies]
x11rb = "*"
serde = { version = "*", features = ["derive"] }
serde_json = "*"
