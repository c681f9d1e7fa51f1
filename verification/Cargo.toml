[package]
name = "proxudesktop"
version = "0.1.0"
edition = "2021"
publish = false

[dependencies]
base64 = "0.22"
serde = { version = "1", features = ["derive"] }
serde_json = "1"
url = "2"
urlencoding = "2"
rand = "0.8"
dirs = "5"
which = "6"
zip = { version = "2", default-features = false, features = ["deflate"] }
reqwest = { version = "0.12", default-features = false, features = ["json", "rustls-tls", "socks"] }
tokio = { version = "1", features = ["time", "rt-multi-thread", "macros"] }
