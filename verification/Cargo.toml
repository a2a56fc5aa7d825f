[package]
name = "deskvrm"
version = "0.1.0"
edition = "2021"
publish = false

[dependencies]
axum = { version = "0.8", default-features = false, features = ["http1", "json", "tokio"] }
cocoa = "0.24"
mouse_position = "0.1"
serde = { version = "1", features = ["derive"] }
serde_json = "1"
simple_logger = { version = "4", default-features = false }
tokio = { version = "1", features = ["fs", "net", "rt"] }
tower-http = { version = "0.6", features = ["cors"] }
