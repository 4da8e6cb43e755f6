[package]
name = "kanban_automation"
version = "0.1.0"
edition = "2021"
publish = false

[dependencies]
uuid = { version = "1", features = ["v4", "serde"] }
chrono = { version = "0.4", default-features = false, features = ["clock", "std", "serde"] }
serde = { version = "1", features = ["derive"] }
serde_json = "1"
json-patch = "2"
sqlx = { version = "0.8", default-features = false, features = ["sqlite", "runtime-tokio", "chrono", "uuid", "macros", "migrate"] }
tokio = { version = "1", features = ["fs", "rt", "macros"] }
tracing = "0.1"
thiserror = "2"
