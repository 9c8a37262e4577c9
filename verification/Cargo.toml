[package]
name = "acsrs"
version = "0.1.0"
edition = "2021"
publish = false

[dependencies]
base64 = "*"
digest_auth = "*"
eyre = "*"
flume = "*"
rand = "*"
reqwest = { version = "*", default-features = false }
serde = { version = "*", features = ["derive"] }
tokio = { version = "*", features = ["sync", "rt-multi-thread", "macros", "time"] }
toml = "*"
