[package]
name = "visit_counter"
version = "0.1.0"
edition = "2021"
publish = false

[dependencies]
axum = "0.6"
fred = "7"
http = "0.2"
serde = { version = "1", features = ["derive"] }
serde_json = "1"
tokio = { version = "1", features = ["full"] }
tower = "0.4"
tower-http = { version = "0.4", features = ["fs", "trace"] }
tower-sessions = { version = "0.4", features = ["redis-store"] }
