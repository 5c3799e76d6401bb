[package]
name = "ch341_i2c"
version = "0.1.0"
edition = "2021"
publish = false

[dependencies]
embedded-hal = "=0.2.7"
log = "0.4"
