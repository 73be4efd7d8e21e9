[package]
name = "ketuvim"
version = "0.1.0"
edition = "2021"
publish = false

[dependencies]
bitflags = "1"
flagset = "*"
libc = "0.2"
sev = { version = "*", default-features = false }
