[package]
name = "comfyui-openai-api"
version = "0.1.0"
edition = "2021"
publish = false

[dependencies]
axum = "0.8"
base64 = "0.22"
futures = "0.3"
log = "0.4"
rand = "0.9"
reqwest = { version = "0.12", default-features = false }
serde_json = "1"
serde_urlencoded = "0.7"
tokio = { version = "1", features = ["macros", "net", "rt-multi-thread", "sync", "time"] }
tokio-tungstenite = "0.26"
