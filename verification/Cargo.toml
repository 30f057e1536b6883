[package]
name = "but_interface"
version = "0.1.0"
edition = "2021"
publish = false

[dependencies]
serde_json = "*"
tokio = { version = "*", features = ["sync", "rt-multi-thread", "macros", "net"] }
uuid = { version = "*", features = ["v4"] }
axum = { version = "*", features = ["ws"] }
tower = "*"
tower-http = { version = "*", features = ["cors"] }
futures-util = "*"
serde = { version = "*", features = ["derive"] }
