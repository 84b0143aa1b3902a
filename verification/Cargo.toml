[package]
name = "chat_overlay"
version = "0.1.0"
edition = "2021"
publish = false

[dependencies]
druid = "=0.8.3"
rdev = "=0.5.3"
reqwest = { version = "=0.11.27", features = ["json"] }
serde = { version = "=1.0.229", features = ["derive"] }
tokio = { version = "=1.54.1", features = ["rt-multi-thread", "macros", "time"] }

[dev-dependencies]
http = "=0.2.12"
serde_json = "=1.0.154"
