[package]
name = "bouffalo_hal"
version = "0.1.0"
edition = "2021"
publish = false

[dependencies]
crc = "*"
volatile-register = "*"
embedded-hal = "*"
embedded-hal-async = "*"
embedded-hal-nb = "*"
embedded-io = "*"
nb = "*"
atomic-waker = "*"
embedded-time = "*"
