[package]
name = "agent_session"
version = "0.1.0"
edition = "2021"
publish = false

[dependencies]
futures = "0.3"
regex = "1"
serde = { version = "1", features = ["derive"] }
serde_json = "1"
thiserror = "2"
tokio = { version = "1", features = ["macros", "rt", "sync", "time"] }
tokio-util = "0.7"
