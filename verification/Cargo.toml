[package]
name = "nodewatch"
version = "0.1.0"
edition = "2021"
publish = false

[dependencies]
serde = { version = "*", features = ["derive"] }
serde_json = "*"
serde_yaml = "*"
axum = "*"
tokio = { version = "*", features = ["full"] }
tower = { version = "*", features = ["full"] }
tower-http = { version = "*", features = ["trace"] }
tracing = "*"
tracing-subscriber = "*"
reqwest = { version = "*", default-features = false }
lettre = { version = "*", default-features = false, features = ["smtp-transport", "builder"] }
chrono = "*"
