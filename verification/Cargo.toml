[package]
name = "qubit-budget"
version = "0.3.0"
edition = "2021"
publish = false

[dependencies]
qubit-clock = "*"
serde = { version = "1", features = ["derive"] }
serde_json = "1"
thiserror = "2"
