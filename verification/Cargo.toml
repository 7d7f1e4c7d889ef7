[package]
name = "vcb_audio"
version = "0.1.0"
edition = "2021"
publish = false

[dependencies]
anyhow = "1"
cpal = "0.9"

[dev-dependencies]
byteorder = "1"
