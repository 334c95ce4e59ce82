[package]
name = "flight_controller"
version = "0.1.0"
edition = "2021"
publish = false

[dependencies]
byteorder = "1"
i2cdev = "*"
