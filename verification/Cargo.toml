[package]
name = "kernel"
version = "0.1.0"
edition = "2021"
publish = false

[dependencies]
limine = "0.5.0"
pic8259 = "=0.11.0"
spin = "=0.12.3"
x86_64 = { version = "=0.15.5", default-features = false, features = ["instructions"] }
