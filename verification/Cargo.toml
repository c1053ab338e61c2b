[package]
name = "patch_hub"
version = "0.1.0"
edition = "2021"
publish = false

[dependencies]
anyhow = "1"
serde = { version = "1", features = ["derive"] }
tokio = { version = "1", default-features = false, features = ["sync", "rt"] }
