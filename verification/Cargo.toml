[package]
name = "brigade"
version = "0.1.0"
edition = "2021"
publish = false

[dependencies]
docopt = "1"
serde = { version = "1", features = ["derive"] }
tokio = { version = "1", features = ["full"] }
