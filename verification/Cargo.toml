[package]
name = "spm_backend"
version = "0.1.0"
edition = "2021"
publish = false

[dependencies]
eyre = "0.6"
serde_json = "1"
url = "2"
walkdir = "2"
