[package]
name = "orsomafo"
version = "0.1.0"
edition = "2021"
publish = false

[dependencies]
async-trait = "*"
serde = { version = "*", features = ["derive"] }
serde_json = "*"
tokio = { version = "*", features = ["rt-multi-thread", "sync", "time"] }
