[package]
name = "hash_graph"
version = "0.1.0"
edition = "2021"
publish = false

[dependencies]
flatbuffers = "2"
uuid = "1"
tokio-postgres = { version = "0.7", features = ["with-uuid-1", "with-serde_json-1"] }
serde_json = "1"
serde = { version = "1", features = ["derive"] }
futures = "0.3"
async-trait = "0.1"
