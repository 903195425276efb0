[package]
name = "runeterra"
version = "0.1.0"
edition = "2021"
publish = false

[dependencies]
lazy_static = "1"
reqwest = { version = "0.12", default-features = false, features = ["json"] }
serde = { version = "1", features = ["derive"] }
serde_json = "1"
strum = "0.18"
strum_macros = "0.18"
thiserror = "1"
