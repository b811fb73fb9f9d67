[package]
name = "token_auth"
version = "0.1.0"
edition = "2021"
publish = false

[dependencies]
jsonwebtoken = "9"
serde_json = "1"
serde = { version = "1", features = ["derive"] }
tokio = { version = "1", features = ["full"] }
reqwest = { version = "0.12", default-features = false, features = ["rustls-tls"] }
axum = { version = "0.8", features = ["macros", "ws"] }
async-graphql = "7"
async-graphql-axum = "7"
futures-util = "0.3"
async-trait = "0.1"
