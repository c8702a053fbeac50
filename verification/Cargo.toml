[package]
name = "aes_x86"
version = "0.1.0"
edition = "2021"
publish = false

[dependencies]
cipher = "0.5"
cpufeatures = "0.2"
zeroize = { version = "1.8", default-features = false }
