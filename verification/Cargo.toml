[package]
name = "memscribe_core"
version = "0.1.0"
edition = "2021"
publish = false

[dependencies]
regex = "1"
serde = { version = "1", features = ["derive"] }
time = { version = "0.3", features = ["serde", "formatting", "parsing"] }
