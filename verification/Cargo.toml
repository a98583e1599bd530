[package]
name = "miy"
version = "0.1.0"
edition = "2021"
publish = false

[dependencies]
glutin = "0.32"
raw-window-handle = "0.6"
log = "0.4"
