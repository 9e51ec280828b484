[package]
name = "sone"
version = "0.1.0"
edition = "2021"
publish = false

[dependencies]
base64 = "=0.22.1"
dirs = "=7.0.0"
image = { version = "0.25", default-features = false, features = ["png"] }
log = "=0.4.35"
rand = "=0.10.3"
reqwest = { version = "=0.13.5", default-features = false, features = ["json", "form"] }
serde = { version = "=1.0.229", features = ["derive"] }
serde_json = "=1.0.154"
sha2 = "=0.11.1"
tokio = { version = "=1.54.1", features = ["sync", "time", "rt", "macros"] }
uuid = { version = "=1.29.0", features = ["v4"] }
