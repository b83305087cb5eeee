[package]
name = "plume_models"
version = "0.1.0"
edition = "2021"
publish = false

[dependencies]
activitypub = "=0.1.6"
activitystreams = "=0.7.0-alpha.18"
chrono = "=0.4.45"
diesel = { version = "=1.4.8", features = ["sqlite", "chrono"] }
serde = { version = "=1.0.229", features = ["derive"] }
serde_json = "=1.0.154"
