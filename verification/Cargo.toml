[package]
name = "keyword_search"
version = "0.1.0"
edition = "2021"
publish = false

[dependencies]
tantivy = "0.22"
rmcp = { version = "0.1", features = ["server"] }
serde = { version = "1", features = ["derive"] }
