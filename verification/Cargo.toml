[package]
name = "backup_transport"
version = "0.1.0"
edition = "2021"
publish = false

[dependencies]
async-trait = "*"
gl-client = { version = "=0.1.9", default-features = false }
