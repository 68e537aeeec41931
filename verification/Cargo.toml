[package]
name = "refx_pp"
version = "0.1.0"
edition = "2021"
publish = false

[dependencies]
rosu-map = "*"
rust_decimal = "*"
rust_decimal_macros = "*"
