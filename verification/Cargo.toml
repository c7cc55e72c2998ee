[package]
name = "conditional_response"
version = "0.1.0"
edition = "2021"
publish = false

[dependencies]
actix-web = { version = "=4.15.0", default-features = false }
chrono = "=0.4.45"
rust-embed-for-web = "*"
