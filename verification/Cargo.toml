[package]
name = "hk32f0301mxxc_hal"
version = "0.1.0"
edition = "2021"
publish = false

[dependencies]
cast = "0.3"
cortex-m = "0.7"
cortex-m-rt = "0.7"
embedded-hal = "1.0"
embedded-hal-nb = "1.0"
hk32f0301mxxc-pac = "*"
nb = "1"
