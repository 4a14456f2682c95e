[package]
name = "ecat"
version = "0.1.0"
edition = "2021"
publish = false

[dependencies]
ethercrab = "*"
heapless = "*"
io-uring = "*"
