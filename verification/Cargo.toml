[package]
name = "rc_rover"
version = "0.1.0"
edition = "2021"
publish = false

[dependencies]
anyhow = "1"
async-channel = "2"
axum = { version = "0.8", features = ["ws"] }
dioxus = "0.7"
futures-util = "0.3"
gloo-net = "0.6"
serde = { version = "1", features = ["derive"] }
serde_json = "1"
tokio = { version = "1", features = ["macros", "rt-multi-thread", "net", "sync"] }
tracing = "0.1"
