[package]
name = "tyria"
version = "0.1.0"
edition = "2021"
publish = false

[dependencies]
serde_json = "*"
serde = { version = "*", features = ["derive"] }
chrono = { version = "*", features = ["serde"] }
reqwest = { version = "*", default-features = false, features = ["blocking"] }
