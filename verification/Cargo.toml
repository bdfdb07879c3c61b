[package]
name = "tls_handy"
version = "0.1.0"
edition = "2021"
publish = false

[dependencies]
ring = "*"
webpki = "*"
