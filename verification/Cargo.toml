[package]
name = "remote_work"
version = "0.1.0"
edition = "2021"
publish = false

[dependencies]
chrono = "0.4"
image = "0.24"
imageproc = "0.23"
rusttype = "0.9"
serde = { version = "1", features = ["derive"] }
serde_json = "1"
