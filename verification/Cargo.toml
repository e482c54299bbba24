[package]
name = "rabbitmq_management_client"
version = "0.1.0"
edition = "2021"
publish = false

[dependencies]
reqwest = { version = "=0.13.5", default-features = false, features = ["json", "query"] }
reqwest-middleware = { version = "=0.5.2", features = ["json", "query"] }
serde = { version = "=1.0.229", features = ["derive"] }
serde_json = "=1.0.151"
http = "=1.5.0"
base64 = "=0.23.1"
async-trait = "=0.1.92"
anyhow = "=1.0.104"
thiserror = "=2.0.21"
rust_decimal = "=1.43.0"
