[package]
name = "mio_udp"
version = "0.1.0"
edition = "2021"
publish = false

[dependencies]
polling = "=3.11.0"
socket2 = "0.5"
