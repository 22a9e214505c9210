[package]
name = "pocket"
version = "0.1.0"
edition = "2021"
publish = false

[dependencies]
accelerometer = "=0.12.0"
embedded-graphics = "=0.6.2"
heapless = "=0.5.6"
micromath = "=1.1.1"
panic-halt = "=0.2.0"
seeed-erpc = "=0.1.1"
wio_terminal = "=0.3.0"
