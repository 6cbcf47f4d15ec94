[package]
name = "conv_lib"
version = "0.1.0"
edition = "2021"
publish = false

[dependencies]
rust-crypto = "0.2"
sha2 = "*"
md-5 = "*"
aes = "*"
ctr = "*"
cipher = "*"
clap = "2"
shellexpand = "*"
indicatif = "*"
