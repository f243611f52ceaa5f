[package]
name = "uem_reader"
version = "0.1.0"
edition = "2021"
publish = false

[dependencies]
rusb = "*"
rand = "0.8"
