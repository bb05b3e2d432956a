[package]
name = "golem-websearch"
version = "0.1.0"
edition = "2021"
publish = false

[dependencies]
log = "0.4"
url = "2"
serde = { version = "1", features = ["derive"] }
serde_json = "1"
futures = "0.3"
reqwest = { version = "0.12", default-features = false, features = ["json"] }
wasi-logger = "*"
