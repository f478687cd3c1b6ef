[package]
name = "device_faker"
version = "0.1.0"
edition = "2021"
publish = false

[dependencies]
anyhow = "1"
jni = "0.22"
libc = "0.2"
log = "0.4"
serde = { version = "1", features = ["derive"] }
serde_json = "1"
toml = "0.9"
