[package]
name = "shurbai"
version = "0.1.0"
edition = "2021"
publish = false

[dependencies]
anyhow = "1"
axum = "*"
axum-streams = { version = "*", features = ["json", "text"] }
chrono = "0.4"
llama-cpp-2 = "*"
rand = "0.8"
serde = { version = "1", features = ["derive"] }
serde_json = { version = "1", features = ["raw_value"] }
tinytemplate = "1"
tokio = { version = "1", features = ["full"] }
tokio-stream = "0.1"
