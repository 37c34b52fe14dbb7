[package]
name = "disco"
version = "0.1.0"
edition = "2021"
publish = false

[dependencies]
chacha20 = "0.9"
clap = { version = "3", features = ["cargo"] }
ctrlc = "3"
getrandom = "0.2"
libc = "0.2"
