[package]
name = "surrealist"
version = "0.1.0"
edition = "2021"
publish = false

[dependencies]
dirs = "=5.0.1"
futures = "=0.3.34"
regex = "=1.13.1"
serde = { version = "=1.0.229", features = ["derive"] }
serde_json = "=1.0.154"
surrealdb = { version = "=1.4.2", default-features = false, features = ["protocol-ws"] }
tokio = { version = "=1.54.1", features = ["macros", "rt", "sync", "time"] }
url = "=2.5.8"
uuid = { version = "=1.29.0", features = ["v4"] }
