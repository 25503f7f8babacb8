[package]
name = "drogue_device"
version = "0.1.0"
edition = "2021"
publish = false

[dependencies]
lorawan-device = "=0.7.1"
lorawan = "=0.7.1"
heapless = "=0.7.17"
embassy-time = "=0.5.1"
