[package]
name = "location_history"
version = "0.1.0"
edition = "2021"
publish = false

[dependencies]
anyhow = "1"
colorgrad = "0.6"
image = "0.24"
imageproc = "0.23"
serde = { version = "1", features = ["derive"] }
serde_json = "1"
structopt = "0.3"
time = { version = "0.3", features = ["parsing", "serde-well-known"] }
