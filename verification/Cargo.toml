[package]
name = "moondancer"
version = "0.1.0"
edition = "2021"
publish = false

[dependencies]
heapless = "0.8"
ladybug = "*"
log = "0.4"
smolusb = "*"
