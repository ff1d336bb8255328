[package]
name = "aelita_github"
version = "0.1.0"
edition = "2021"
publish = false

[dependencies]
crossbeam = "0.2"
hyper = "0.10"
log = "0.4"
serde = { version = "1", features = ["derive"] }
serde_json = "1"
