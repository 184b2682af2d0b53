[package]
name = "sddc"
version = "0.1.0"
edition = "2021"
publish = false

[dependencies]
wide = "*"
nusb = "0.2"
anyhow = "1"
thiserror = "2"
log = "0.4"
