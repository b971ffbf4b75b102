[package]
name = "embedded-update"
version = "0.1.0"
edition = "2021"
publish = false

[dependencies]
heapless = "0.7"
drogue-ajour-protocol = { version = "*", default-features = false }
embedded-hal-async = "*"
