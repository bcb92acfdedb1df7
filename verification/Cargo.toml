[package]
name = "sardine"
version = "0.1.0"
edition = "2021"
publish = false

[dependencies]
num-bigint = "*"
rand = "*"
sha2 = "*"
hmac = "*"
aes = "*"
cbc = { version = "*", features = ["alloc", "block-padding"] }
