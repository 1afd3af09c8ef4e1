[package]
name = "flowsight_agent"
version = "0.1.0"
edition = "2021"
publish = false

[dependencies]
base64 = "=0.22.1"
image = { version = "=0.25.10", default-features = false, features = ["png"] }
serde_json = "=1.0.154"
dirs = "=7.0.0"
chrono = { version = "=0.4.45", default-features = false, features = ["clock"] }
flate2 = "=1.1.10"
tar = "=0.4.46"
zip = { version = "=9.2.2", default-features = false, features = ["deflate"] }
reqwest = { version = "=0.12.28", default-features = false, features = ["blocking", "json", "rustls-tls"] }
libc = "=0.2.191"
ashpd = { version = "=0.10.3", default-features = false, features = ["tokio"] }
tokio = { version = "=1.54.1", features = ["rt", "time"] }
log = "=0.4.35"
