[package]
name = "spsc_pipeline"
version = "0.1.0"
edition = "2021"
publish = false

[dependencies]
sha2 = "*"
blake3 = "*"
rtrb = "*"
