[package]
name = "multiraft"
version = "0.1.0"
edition = "2021"
publish = false

[dependencies]
anyhow = "1"
bincode = "1.3"
openraft = { version = "=0.10.0-alpha.30", features = ["serde", "type-alias"] }
prost = "0.13"
serde = { version = "1", features = ["derive"] }
serde_json = "1"
sha2 = "0.10"
thiserror = "1"
tokio = { version = "1", features = ["full"] }
tokio-stream = { version = "0.1", features = ["net"] }
tonic = "0.12"
tracing = "0.1"

[dev-dependencies]
tempfile = "3"
