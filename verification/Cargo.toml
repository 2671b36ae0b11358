[package]
name = "hdr_pipeline"
version = "0.1.0"
edition = "2021"
publish = false

[dependencies]
tauri = { version = "*", default-features = false }
