[package]
name = "es_base_tools"
version = "0.1.0"
edition = "2021"
publish = false

[dependencies]
elasticsearch = "9.0.0-alpha.1"
indexmap = { version = "2", features = ["serde"] }
rmcp = { version = "0.2", features = ["server"] }
rmcp-macros = "0.2"
schemars = "0.8"
serde = { version = "1", features = ["derive"] }
serde-aux = "4"
serde_json = "1"
