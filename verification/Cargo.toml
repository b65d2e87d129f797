[package]
name = "omniemployee_gui"
version = "0.1.0"
edition = "2021"
publish = false

[dependencies]
anyhow = "1"
chrono = "0.4"
regex = "1"
reqwest = { version = "0.12", default-features = false, features = ["blocking", "json"] }
serde = { version = "1", features = ["derive"] }
serde_json = "1"
urlencoding = "2"
uuid = { version = "1", features = ["v4"] }
