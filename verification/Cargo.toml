[package]
name = "mattermost_bot"
version = "0.1.0"
edition = "2021"
publish = false

[dependencies]
mattermost_api = "*"
async-trait = "*"
serde = { version = "*", features = ["derive"] }
serde_json = "*"
tracing = "*"
thiserror = "*"
