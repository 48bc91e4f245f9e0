[package]
name = "build_tracker"
version = "0.1.0"
edition = "2021"
publish = false

[dependencies]
diesel = { version = "*", default-features = false }
chrono = "*"
serde_json = "*"
actix-web = { version = "*", default-features = false }
