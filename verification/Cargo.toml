[package]
name = "borges"
version = "0.1.0"
edition = "2021"
publish = false

[dependencies]
anyhow = "*"
async-graphql = "*"
async-graphql-axum = "*"
axum = "*"
reqwest = { version = "*", default-features = false, features = ["json"] }
serde = { version = "*", features = ["derive"] }
serde_json = "*"
sqlx = { version = "*", default-features = false, features = ["runtime-tokio", "postgres"] }
tokio = { version = "*", features = ["rt-multi-thread", "macros", "signal"] }
