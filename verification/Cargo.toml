[package]
name = "node_types"
version = "0.1.0"
edition = "2021"
publish = false

[dependencies]
primitive-types = { version = "0.12", features = ["serde"] }
serde = { version = "1", features = ["derive"] }
