[package]
name = "odilf-site"
version = "0.1.0"
edition = "2021"
publish = false

[dependencies]
color-eyre = "=0.6.5"
comrak = { version = "=0.43.0", default-features = false }
gray_matter = "=0.3.2"
image = { version = "=0.25.10", default-features = false, features = ["jpeg", "png", "webp"] }
jiff = { version = "=0.2.38", features = ["serde"] }
katex = "=0.4.6"
maud = "=0.27.0"
reqwest = { version = "=0.12.28", default-features = false, features = ["blocking", "json", "rustls-tls"] }
serde = { version = "=1.0.229", features = ["derive"] }
serde_json = "=1.0.154"
serde_with = "=3.24.0"
toml = "=0.9.8"
tracing = "=0.1.44"
tracing-subscriber = "=0.3.23"
url = { version = "=2.5.8", features = ["serde"] }
