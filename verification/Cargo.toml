[package]
name = "safe_url"
version = "0.1.0"
edition = "2021"
publish = false

[dependencies]
multibase = "=0.6.0"
safe-nd = "=0.9.0"
serde = { version = "1", features = ["derive"] }
tiny-keccak = "=1.5.0"
url = "=2.1.1"
urlencoding = "=1.1.1"
