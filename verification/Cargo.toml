[package]
name = "apple-to-last-fm"
version = "1.1.0"
edition = "2021"
publish = false

[dependencies]
apple-music = "*"
clap = { version = "4", features = ["derive"] }
dirs = "*"
libc = "0.2"
md-5 = "0.10"
reqwest = { version = "0.12", default-features = false, features = ["blocking", "rustls-tls"] }
serde = { version = "1", features = ["derive"] }
serde_json = "1"
thiserror = "2"
toml = "0.8"
tracing = "0.1"
tracing-oslog = "*"
tracing-subscriber = "0.3"
