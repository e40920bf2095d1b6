[package]
name = "xcodeproj"
version = "0.1.0"
edition = "2021"

[dependencies]
anyhow = "1"
serde = { version = "1", features = ["derive"] }
serde-xml-rs = "*"
