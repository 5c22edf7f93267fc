[package]
name = "opendp"
version = "0.1.0"
edition = "2021"

[dependencies]
chacha20 = "0.9"
getrandom = "0.2"
rand = "0.8"
