[package]
name = "htmx_echo"
version = "0.1.0"
edition = "2021"
publish = false

[dependencies]
axum = "=0.6.20"
maud = "=0.25.0"
serde_json = "=1.0.154"
tokio = { version = "=1.54.1", features = ["full"] }
tower-http = { version = "=0.4.4", features = ["fs", "trace"] }
tracing = "=0.1.44"
tracing-subscriber = "=0.3.23"
