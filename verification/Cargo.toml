[package]
name = "talent_search"
version = "0.1.0"
edition = "2021"
publish = false

[dependencies]
chrono = "=0.4.45"
params = "=0.8.0"
rs-es = "=0.12.3"
serde = { version = "*", features = ["derive"] }
