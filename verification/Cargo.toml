[package]
name = "hubuum_client"
version = "0.1.0"
edition = "2021"
publish = false

[dependencies]
url = "*"
serde_json = "*"
serde = { version = "*", features = ["derive"] }
reqwest = { version = "*", default-features = false, features = ["blocking", "json"] }
chrono = { version = "*", features = ["serde"] }
tabled = "*"
