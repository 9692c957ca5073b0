[package]
name = "xero_core"
version = "0.1.0"
edition = "2021"
publish = false

[dependencies]
base64 = "=0.22.1"
bs58 = "=0.5.1"
sha2 = "=0.10.9"
time = { version = "=0.3.55", features = ["formatting", "parsing"] }
url = "=2.5.8"
serde = { version = "=1.0.229", features = ["derive"] }
serde_json = "=1.0.154"
image = { version = "=0.25.10", default-features = false, features = ["jpeg", "png"] }
