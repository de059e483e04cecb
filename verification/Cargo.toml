[package]
name = "legend"
version = "0.1.0"
edition = "2021"
publish = false

[dependencies]
serde_json = "1"
serde = { version = "1", features = ["derive"] }
rocket = { version = "0.5", features = ["json"] }
async-graphql = "7"
sqlx = { version = "0.8", default-features = false, features = ["postgres", "runtime-tokio"] }
tokio-util = { version = "0.7", features = ["compat"] }
thiserror = "2"
color-eyre = "0.6"
