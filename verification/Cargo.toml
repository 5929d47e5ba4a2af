[package]
name = "character_tracker"
version = "0.1.0"
edition = "2021"
publish = false

[dependencies]
surrealdb-core = { version = "1", default-features = false }
serde = { version = "1", features = ["derive"] }
anyhow = "1"
tokio = { version = "1", features = ["rt-multi-thread"] }
