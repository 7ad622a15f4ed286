[package]
name = "lalapad-gen2-rmk"
version = "0.1.0"
edition = "2021"
publish = false

[dependencies]
embassy-time = "*"
embedded-hal = "1.0"
embedded-hal-async = "1.0"
usbd-hid = "*"
