[package]
name = "keep_platform"
version = "0.1.0"
edition = "2021"
publish = false

[dependencies]
serde = { version = "=1.0.229", features = ["derive"] }
swc_common = "=26.0.0"
swc_ecmascript = { version = "=74.0.0", features = ["visit"] }
