[package]
name = "review"
version = "0.1.0"
edition = "2021"
publish = false

[dependencies]
async-graphql = { version = "7.0", default-features = false }
async-trait = "0.1"
bcs = "0.1"
linera-base = { version = "0.11.3", default-features = false }
linera-views = { version = "0.11.3", default-features = false }
serde = { version = "1", features = ["derive"] }
serde_json = "1"
thiserror = "1"
