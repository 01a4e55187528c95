[package]
name = "cameleon_ffi"
version = "0.1.0"
edition = "2021"
publish = false

[dependencies]
cameleon = { version = "*", features = ["libusb"] }
