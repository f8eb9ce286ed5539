[package]
name = "fobnail"
version = "0.1.0"
edition = "2021"
publish = false

[dependencies]
rsa = "0.9"
sha2 = { version = "0.10", features = ["oid"] }
rand_core = { version = "0.6", features = ["getrandom"] }
coap-lite = "*"
