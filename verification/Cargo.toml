[package]
name = "obxr"
version = "0.1.0"
edition = "2021"
publish = false

[dependencies]
chacha20 = "=0.9.1"
argon2 = "=0.5.3"
blake2 = "=0.10.6"
getrandom = "=0.2.17"
clap = "=4.5.61"
dialoguer = "=0.11.0"
indicatif = "=0.17.11"
