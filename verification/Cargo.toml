[package]
name = "oauth2_http_client"
version = "0.1.0"
edition = "2021"
publish = false

[dependencies]
oauth2 = { version = "=5.0.0", default-features = false }
async-trait = "=0.1.92"

[dev-dependencies]
serde_json = "=1.0.154"
