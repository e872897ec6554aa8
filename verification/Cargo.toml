[package]
name = "mtls_identity"
version = "0.1.0"
edition = "2021"
publish = false

[dependencies]
ring = "0.16"
rustls = "0.16"
webpki = "0.21"
