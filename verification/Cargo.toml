[package]
name = "tpp"
version = "0.1.0"
edition = "2021"
publish = false

[dependencies]
serde = { version = "*", features = ["derive"] }
serde_json = "*"
serde_yaml = "*"
thiserror = "*"
tokio = { version = "*", features = ["full"] }
async-channel = "*"
reqwest = { version = "*", default-features = false, features = ["json"] }
clap = { version = "*", features = ["derive"] }
tracing = "*"
tracing-subscriber = "*"
axum = "*"
