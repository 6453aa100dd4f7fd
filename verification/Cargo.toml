[package]
name = "mrvcr"
version = "0.1.0"
edition = "2021"
publish = false

[dependencies]
dyn-stack = "0.13"
extendr-api = "*"
faer = "0.22"
