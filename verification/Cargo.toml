[package]
name = "maybe"
version = "0.1.0"
edition = "2021"
publish = false

[dependencies]
async-graphql = { version = "7", default-features = false }
serde = "1"

[dev-dependencies]
serde_json = "1"
