[package]
name = "tildagon"
version = "0.1.0"
edition = "2021"
publish = false

[dependencies]
embassy-embedded-hal = "=0.6.0"
embassy-sync = "=0.8.0"
embassy-time = { version = "=0.5.1", features = ["std"] }
embedded-hal = "=1.0.0"
embedded-hal-async = "=1.0.0"
embedded-hal-bus = "=0.3.0"
heapless = "=0.8.0"
mipidsi = "=0.10.0"
smart-leds = "=0.4.0"
