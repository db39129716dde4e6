[package]
name = "driver-test-cli-v2"
version = "0.1.0"
edition = "2021"
publish = false

[dependencies]
clap = { version = "=4.6.7", features = ["derive"] }
serde_json = { version = "=1.0.154", features = ["preserve_order"] }
tracing = "=0.1.44"
tracing-subscriber = { version = "=0.3.23", features = ["env-filter"] }
wdk = "=0.4.1"
