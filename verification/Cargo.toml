[package]
name = "httpmock"
version = "0.1.0"
edition = "2021"
publish = false

[dependencies]
async-trait = "=0.1.92"
hyper = { version = "=0.14.32", features = ["client", "http1", "tcp"] }
isahc = { version = "1", default-features = false, features = ["text-decoding"] }
regex = "=1.13.1"
serde = { version = "=1.0.229", features = ["derive"] }
serde_json = "=1.0.154"
