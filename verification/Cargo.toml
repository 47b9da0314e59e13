[package]
name = "query_tasks"
version = "0.1.0"
edition = "2021"
publish = false

[dependencies]
anyhow = "=1.0.104"
bevy = { version = "=0.14.2", default-features = false }
bevy_tasks = { version = "=0.14.2", features = ["multi_threaded"] }
serde = { version = "=1.0.229", features = ["derive"] }
serde_json = "=1.0.154"
tiny_http = "0.12"
ureq = { version = "=2.12.1", default-features = false, features = ["json"] }
