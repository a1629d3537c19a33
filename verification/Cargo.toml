[package]
name = "nmsr_core"
version = "0.1.0"
edition = "2021"
publish = false

[dependencies]
itertools = "0.11"
xxhash-rust = { version = "0.8", features = ["xxh3"] }
base64 = "0.21"
uuid = { version = "1", features = ["v4"] }
url = "2"
serde = { version = "1", features = ["derive"] }
serde_json = "1"
reqwest = { version = "0.11", default-features = false }
glam = "0.24"
anyhow = "1"
qoi = "0.4"
image = { version = "0.24", default-features = false }
thiserror = "1"
