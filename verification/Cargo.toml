[package]
name = "cabinet"
version = "0.1.0"
edition = "2021"
publish = false

[dependencies]
async-lock = "3"
axum = { version = "0.8", features = ["multipart"] }
axum-extra = { version = "0.10", features = ["typed-header"] }
axum-server = { version = "0.7", features = ["tls-rustls"] }
base64 = "0.22"
bson = { version = "3", features = ["serde"] }
config = "0.15"
form_urlencoded = "1"
jiff = { version = "0.2", features = ["serde"] }
mime = "0.3"
rand = "0.9"
rcgen = "0.14"
sanitise-file-name = "1"
serde = { version = "1", features = ["derive"] }
serde_with = "3"
tokio = { version = "1", features = ["full"] }
tokio-util = { version = "0.7", features = ["io"] }
tower-http = { version = "0.6", features = ["compression-full", "limit", "trace"] }
tracing = "0.1"
tracing-subscriber = { version = "0.3", features = ["env-filter"] }
tree_magic_mini = "3"
xxhash-rust = { version = "0.8", features = ["xxh3"] }
