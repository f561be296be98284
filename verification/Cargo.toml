[package]
name = "surveillance_ftp"
version = "0.1.0"
edition = "2021"
publish = false

[dependencies]
anyhow = "1"
async-trait = "0.1"
base64 = "=0.22.1"
chrono = "0.4"
crossbeam-channel = "0.5"
env_logger = { version = "0.11", default-features = false }
image = { version = "0.25", default-features = false, features = ["jpeg", "png"] }
rust-ini = "=0.21.3"
libunftp = "=0.20.3"
unftp-sbe-fs = "=0.2.6"
log = "0.4"
notify = "8"
reqwest = { version = "0.12", default-features = false, features = ["blocking", "multipart", "json"] }
serde = { version = "1", features = ["derive"] }
serde_json = "1"
suppaftp = "6"
tokio = { version = "1", features = ["rt"] }
