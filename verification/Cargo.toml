[package]
name = "livox2"
version = "0.1.0"
edition = "2021"
publish = false

[dependencies]
crc = "*"
async-net = "*"
futures-lite = "*"
futures-core = "*"
thiserror = "*"
