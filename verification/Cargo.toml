[package]
name = "sol-atlas-core"
version = "0.1.0"
edition = "2021"
publish = false

[dependencies]
serde = { version = "1", features = ["derive"] }
serde_json = "1"
h3o = "0.11"
chrono = "0.4"
log = "0.4"
leptos = { version = "0.8", default-features = false }
