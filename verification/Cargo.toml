[package]
name = "pyrite_bot"
version = "0.1.0"
edition = "2021"
publish = false

[dependencies]
serde_json = "1"
serde = { version = "1", features = ["derive"] }
axum = { version = "0.6", features = ["headers"] }
tokio = { version = "1", features = ["macros", "rt-multi-thread"] }
poise = "0.5"
dotenv = "0.15"
