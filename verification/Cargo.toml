[package]
name = "amerinth"
version = "0.1.0"
edition = "2021"
publish = false

[dependencies]
serde = { version = "*", features = ["derive"] }
serde_json = "*"
reqwest = { version = "*", default-features = false, features = ["json"] }
chrono = { version = "*", default-features = false, features = ["clock"] }
thiserror = "*"
