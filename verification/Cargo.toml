[package]
name = "gcpx"
version = "0.1.0"
edition = "2021"
publish = false

[dependencies]
base64 = "=0.22.1"
thiserror = "=2.0.21"
serde_json = "=1.0.154"
prost-types = "*"
