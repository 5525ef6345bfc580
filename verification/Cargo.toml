[package]
name = "font_renderer"
version = "0.1.0"
edition = "2021"
publish = false

[dependencies]
euclid = "*"
kernel32-sys = "0.2"
lyon_path = "*"
widestring = "*"
winapi = "0.2"
