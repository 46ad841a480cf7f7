[package]
name = "ncas_netcdf"
version = "0.1.0"
edition = "2021"
publish = false

[dependencies]
axum = "0.7"
csv = "1"
reqwest = "0.12"
serde = { version = "1", features = ["derive"] }
serde_json = "1"
tokio = { version = "1", features = ["full"] }
tower-http = { version = "0.5", features = ["cors"] }
tracing = "0.1"
tracing-subscriber = "0.3"
