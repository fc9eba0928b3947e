[package]
name = "eql_core"
version = "0.1.0"
edition = "2021"
publish = false

[dependencies]
alloy = { version = "0.1", features = ["provider-http", "rpc-types"] }
anyhow = "1"
futures = "0.3"
serde = { version = "1", features = ["derive"] }
thiserror = "1"
