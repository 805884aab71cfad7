[package]
name = "api_server"
version = "0.1.0"
edition = "2021"
publish = false

[dependencies]
anyhow = "=1.0.104"
async-trait = "=0.1.92"
opendal = { version = "=0.59.5", default-features = false }
rspc = "=0.1.4"
serde_json = "=1.0.154"
thiserror = "=1.0.69"
tokio = { version = "=1.54.1", default-features = false }
tracing = "=0.1.44"
