[package]
name = "graph_engine"
version = "0.1.0"
edition = "2021"
publish = false

[dependencies]
config = { version = "*", default-features = false, features = ["yaml"] }
crossbeam = "0.8"
serde = { version = "1", features = ["derive"] }
serde_derive = "1"
