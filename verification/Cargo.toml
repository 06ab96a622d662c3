[package]
name = "service_bridge"
version = "0.1.0"
edition = "2021"
publish = false

[dependencies]
axum = "*"
tokio = { version = "*", features = ["rt-multi-thread", "net", "sync", "macros"] }
tower-http = { version = "*", features = ["trace", "timeout"] }
tracing-subscriber = { version = "*", features = ["env-filter", "fmt"] }
windows-service = "*"
