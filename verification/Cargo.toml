[package]
name = "zip_info"
version = "0.1.0"
edition = "2021"
publish = false

[dependencies]
glob = "0.3"
zip = { version = "0.6", default-features = false, features = ["deflate"] }
serde = { version = "1", features = ["derive"] }
serde_json = "1"
docopt = "1"
