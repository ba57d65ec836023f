[package]
name = "toleration_policy"
version = "0.1.0"
edition = "2021"
publish = false

[dependencies]
anyhow = "=1.0.104"
k8s-openapi = { version = "=0.28.0", features = ["latest"] }
serde = { version = "=1.0.229", features = ["derive"] }
serde_derive = "=1.0.229"
serde_json = "=1.0.151"
wapc-guest = "=1.2.0"
yasec = "=1.0.0"
yasec_derive = "*"
