[package]
name = "todo_core"
version = "0.1.0"
edition = "2021"
publish = false

[dependencies]
axum = { version = "0.7", default-features = false, features = ["json"] }
chrono = { version = "0.4", features = ["serde"] }
serde = { version = "1", features = ["derive"] }
surrealdb = { version = "1", default-features = false, features = ["protocol-ws"] }
tokio = { version = "1", default-features = false, features = ["macros", "rt", "sync"] }
tracing = "0.1"
ulid = { version = "1", features = ["serde"] }
validator = "0.20"
