[package]
name = "benitoite"
version = "0.1.0"
edition = "2021"
publish = false

[dependencies]
blake3 = "*"
atrium-api = "*"
atrium-xrpc-client = { version = "*", default-features = false, features = ["reqwest"] }
futures = "*"
serde = { version = "*", features = ["derive"] }
tokio = { version = "*", features = ["rt-multi-thread", "macros", "sync"] }
toml = "*"
