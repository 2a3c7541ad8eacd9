[package]
name = "jelly_registry"
version = "0.1.0"
edition = "2021"
publish = false

[dependencies]
candid = "0.10"
ciborium = "0.2"
ic-cdk = "0.13"
ic-stable-structures = "0.6"
serde = { version = "1", features = ["derive"] }
serde_json = "1"
