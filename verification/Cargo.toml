[package]
name = "toswa"
version = "0.1.0"
edition = "2021"
publish = false

[dependencies]
eframe = { version = "0.18", features = ["persistence"] }
serde = { version = "1", features = ["derive"] }
