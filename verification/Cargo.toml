[package]
name = "flowcut"
version = "0.1.0"
edition = "2021"
publish = false

[dependencies]
uuid = { version = "1", features = ["v4", "serde"] }
chrono = { version = "0.4", features = ["serde"] }
rayon = "1"
serde = { version = "1", features = ["derive"] }
serde_json = "1"
log = "0.4"
