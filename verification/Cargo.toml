[package]
name = "rocket_include_static_resources"
version = "0.1.0"
edition = "2021"
publish = false

[dependencies]
entity-tag = { version = "=0.2.0", features = ["weak-hasher"] }
mime = "=0.3.17"
mime_guess = "=2.0.5"
rc-u8-reader = { version = "=2.0.17", features = ["tokio"] }
rocket = "=0.5.1"
rocket-cache-response = "=0.7.0"
rocket-etag-if-none-match = "=0.5.0"
