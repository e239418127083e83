[package]
name = "nebula_vrf"
version = "0.1.0"
edition = "2021"
publish = false

[dependencies]
blst = "*"
sha2 = "*"
hex = "*"
base64 = "*"
rand = "0.8"
serde = { version = "*", features = ["derive"] }
axum = "*"
tokio = { version = "*", features = ["full"] }
tracing = "*"
tracing-subscriber = "*"

[dev-dependencies]
statrs = "*"
