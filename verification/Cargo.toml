[package]
name = "dynamixel"
version = "0.1.0"
edition = "2021"
publish = false

[dependencies]
crc16 = "*"
embedded-hal = "0.2"
nb = "0.1"

[dev-dependencies]
rand = "*"
