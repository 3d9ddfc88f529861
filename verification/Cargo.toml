[package]
name = "topgg"
version = "0.1.0"
edition = "2021"
publish = false

[dependencies]
urlencoding = "*"
serde = { version = "*", features = ["derive"] }
serde_json = "*"
tokio = { version = "*", features = ["rt", "sync", "time", "macros"] }
chrono = "*"
reqwest = { version = "*", default-features = false, features = ["json"] }
