[package]
name = "vhd_decrypt"
version = "0.1.0"
edition = "2021"
publish = false

[dependencies]
aes = "=0.8.4"
cbc = "=0.1.2"
cipher = "=0.4.4"
clap = { version = "=4.6.7", features = ["derive"] }
anyhow = "=1.0.104"
const-hex = "=1.19.3"
indicatif = "=0.18.6"
