[package]
name = "character_chat"
version = "0.1.0"
edition = "2021"
publish = false

[dependencies]
serde_json = "1"
serde = { version = "1", features = ["derive"] }
anyhow = "1"
axum = "0.7"
tokio = { version = "1", features = ["full"] }
tower-http = { version = "0.5", features = ["cors"] }
reqwest = { version = "0.12", default-features = false, features = ["json"] }
url = "2"
sqlx = { version = "0.8", features = ["postgres", "runtime-tokio", "chrono"] }
chrono = "0.4"
dotenv = "0.15"
tracing = "0.1"
tracing-subscriber = "0.3"
vvcore = "*"
