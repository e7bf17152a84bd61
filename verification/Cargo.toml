[package]
name = "thndrs_ui"
version = "0.1.0"
edition = "2021"
publish = false

[dependencies]
nucleo-matcher = "=0.3.1"
iocraft = "=0.9.3"
ignore = "=0.4.34"
syntect = { version = "5", default-features = false, features = ["default-fancy"] }
