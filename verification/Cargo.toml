[package]
name = "sixtyfps"
version = "0.1.0"
edition = "2021"
publish = false

[dependencies]
quote = "1"
i-slint-core = "=1.4.1"
qttypes = "*"
cpp = "0.5"
euclid = "0.22"
const-field-offset = "0.1"
