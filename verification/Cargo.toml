[package]
name = "surfman"
version = "0.1.0"
edition = "2021"
publish = false

[dependencies]
euclid = "0.22"
glow = "*"
raw-window-handle = "0.6"
