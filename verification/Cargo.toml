[package]
name = "proxy"
version = "0.1.0"
edition = "2021"
publish = false

[dependencies]
anyhow = "1"
base64uuid = "=1.1.0"
fiberplane = { version = "=1.0.0-beta.15", features = ["base64uuid", "models", "provider-bindings", "provider-runtime"] }
futures = "0.3"
http = "=0.2.12"
hyper = { version = "=0.14.32", features = ["server", "http1", "tcp"] }
rmp-serde = "=1.3.1"
serde = { version = "1", features = ["derive"] }
serde_json = "1"
serde_yaml = "0.9"
tokio = { version = "1", features = ["full"] }
tokio-tungstenite = "=0.18.0"
tracing = "0.1"
url = "2"
uuid = "=1.29.0"
