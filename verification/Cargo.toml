[package]
name = "spin-contrib-http"
version = "0.1.0"
edition = "2021"
publish = false

[dependencies]
anyhow = "1"
bytes = "1"
http = "1"
spin-sdk = "3"
