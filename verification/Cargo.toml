[package]
name = "gud_gadget"
version = "0.1.0"
edition = "2021"
publish = false

[dependencies]
anyhow = "*"
bytes = "*"
ctrlc = "*"
lz4 = "*"
tracing = "*"
tracing-subscriber = "*"
usb-gadget = "*"
