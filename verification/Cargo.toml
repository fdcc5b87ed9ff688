[package]
name = "trailbase_core"
version = "0.1.0"
edition = "2021"
publish = false

[dependencies]
async-trait = "0.1"
base64 = "0.22"
lazy_static = "1"
serde = { version = "1", features = ["derive"] }
thiserror = "2"
trailbase-sqlite = "*"
ts-rs = "*"
url = "2"
