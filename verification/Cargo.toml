[package]
name = "uefi_time_driver"
version = "0.1.0"
edition = "2021"
publish = false

[dependencies]
spin = "*"
uefi = "*"
embassy-time-driver = "*"
