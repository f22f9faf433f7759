[package]
name = "ocloud"
version = "0.1.0"
edition = "2021"
publish = false

[dependencies]
sha2 = "0.10"
mime_guess = "2"
axum = { version = "0.7", features = ["multipart"] }
tokio = { version = "1", features = ["full"] }
tokio-util = { version = "0.7", features = ["io"] }
sqlx = { version = "0.8", default-features = false, features = ["postgres", "runtime-tokio", "derive", "migrate"] }
serde = { version = "1", features = ["derive"] }
serde_json = "1"
strum_macros = "0.26"
lazy_static = "1"
dotenvy = "0.15"
config = { version = "0.14", default-features = false, features = ["toml"] }
futures = "0.3"
bytes = "1"
anyhow = "1"
toml = "0.8"
clap = { version = "4", features = ["derive"] }
reqwest = { version = "0.12", default-features = false, features = ["multipart", "stream"] }
