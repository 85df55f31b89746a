[package]
name = "graphql_ipc"
version = "0.1.0"
edition = "2021"
publish = false

[dependencies]
async-graphql = { version = "*", features = ["dynamic-schema"] }
serde_json = "1"
futures = "0.3"
