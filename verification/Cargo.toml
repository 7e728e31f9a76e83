[package]
name = "isolapurr_usb_hub"
version = "0.1.0"
edition = "2021"
publish = false

[dependencies]
embedded-hal = "1"
sw2303 = "*"
tps55288 = "*"
ina226 = "*"
