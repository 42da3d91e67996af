[package]
name = "mmo"
version = "0.1.0"
edition = "2021"
publish = false

[dependencies]
bitcode = "0.6"
tokio = { version = "1", features = ["sync", "net", "rt", "macros"] }
tracing = "0.1"
tracing-subscriber = "0.3"
redis = { version = "0.25", features = ["r2d2"] }
r2d2 = "0.8"
serde = { version = "1", features = ["derive"] }
serde_json = "1"
anyhow = "1"
rapier3d = "0.22"
godot = "0.2"
