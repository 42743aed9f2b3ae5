[package]
name = "tls_nal"
version = "0.1.0"
edition = "2021"
publish = false

[dependencies]
heapless = "0.5"
nb = "1"
no-std-net = "0.4"
