[package]
name = "padbridge"
version = "0.1.0"
edition = "2021"
publish = false

[dependencies]
tokio = { version = "*", features = ["full"] }
axum = { version = "*", features = ["ws"] }
gilrs = "*"
tracing-subscriber = "*"
