[package]
name = "where_am_i"
version = "0.1.0"
edition = "2021"
publish = false

[dependencies]
worker = "*"
console_error_panic_hook = "*"
