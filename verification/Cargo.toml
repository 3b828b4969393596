[package]
name = "kindle_chess"
version = "0.1.2"
edition = "2021"
publish = false

[dependencies]
image = { version = "=0.25.10", default-features = false, features = ["png"] }
log = "=0.4.35"
oauth2 = { version = "=4.4.2", default-features = false }
qrcode = { version = "0.14", default-features = false }
reqwest = { version = "=0.12.28", default-features = false, features = ["json", "rustls-tls"] }
semver = "=1.0.28"
serde = { version = "=1.0.229", features = ["derive"] }
serde_json = "=1.0.154"
sha2 = "=0.10.9"
tokio = { version = "=1.54.1", features = ["rt-multi-thread", "macros", "time", "sync"] }
uuid = { version = "=1.29.0", features = ["v4"] }
x11rb = "=0.13.2"
