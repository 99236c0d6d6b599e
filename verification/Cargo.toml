[package]
name = "mini_note"
version = "0.1.0"
edition = "2021"
publish = false

[dependencies]
rand = "*"
mime_guess = "*"
axum = { version = "*", features = ["multipart"] }
tokio = { version = "*", features = ["full"] }
tower-http = { version = "*", features = ["cors"] }
serde = { version = "*", features = ["derive"] }
serde_json = "*"
anyhow = "*"
