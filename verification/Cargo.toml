[package]
name = "document_registry"
version = "0.1.0"
edition = "2021"
publish = false

[dependencies]
schnorrkel = "*"
actix-web = "*"
serde = { version = "*", features = ["derive"] }
