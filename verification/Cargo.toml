[package]
name = "ysos_kernel"
version = "0.1.0"
edition = "2021"
publish = false

[dependencies]
x86_64 = { version = "0.15", default-features = false, features = ["instructions"] }
crossbeam-queue = "0.3"
xmas-elf = "0.9"
spin = "0.9"
log = "0.4"
bitflags = "2"
bit_field = "0.10"
x86 = "0.52"
