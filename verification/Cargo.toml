[package]
name = "xds_client"
version = "0.1.0"
edition = "2021"
publish = false

[dependencies]
anyhow = "1"
async-stream = "0.3"
prost = "0.12"
prost-types = "0.12"
thiserror = "1"
tokio = { version = "1", features = ["macros", "rt", "sync", "time"] }
tonic = "0.11"
tracing = "0.1"
