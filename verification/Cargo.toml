[package]
name = "nsuite"
version = "0.1.0"
edition = "2021"
publish = false

[dependencies]
ringbuf = "=0.4.8"
skyline = "=0.6.0"
