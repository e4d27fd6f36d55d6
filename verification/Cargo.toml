[package]
name = "pulse-sys"
version = "0.1.0"
edition = "2021"
publish = false

[dependencies]
glib-sys = "*"
libc = "0.2"
libloading = "0.8"
num-derive = "0.4"
num-traits = "0.2"
once_cell = "1"
