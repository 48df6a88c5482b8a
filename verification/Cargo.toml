[package]
name = "permit_store"
version = "0.1.0"
edition = "2021"
publish = false

[dependencies]
heed = "=0.11.0"
uuid = { version = "*", features = ["v4"] }
serde = { version = "*", features = ["derive"] }
chrono = { version = "*", features = ["serde"] }
actix-web = "*"

[dev-dependencies]
tempfile = "*"
