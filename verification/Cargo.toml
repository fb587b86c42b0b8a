[package]
name = "bitbang_kernel"
version = "0.1.0"
edition = "2021"
publish = false

[dependencies]
tock-registers = "*"
embedded-hal = "0.2"
nb = "*"
aarch64-cpu = "*"
