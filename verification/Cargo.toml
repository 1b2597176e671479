[package]
name = "zenavif"
version = "0.1.0"
edition = "2021"
publish = false

[dependencies]
sha2 = "=0.10.9"
zenavif-parse = "=0.6.2"
serde = { version = "=1.0.229", features = ["derive"] }
serde_json = "=1.0.154"
thiserror = "=2.0.21"
bytemuck = "=1.25.2"
imgref = "=1.12.3"
rgb = "=0.8.53"
enough = "=0.4.5"
almost-enough = "=0.4.5"
whereat = "=0.1.5"
zenpixels = "=0.2.16"
