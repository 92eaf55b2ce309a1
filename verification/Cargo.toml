[package]
name = "stahlwerk_extension"
version = "0.1.0"
edition = "2021"
publish = false

[dependencies]
smol = "2"
anyhow = "1"
chrono = "0.4"
serde = { version = "1", features = ["derive"] }
