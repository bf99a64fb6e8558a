[package]
name = "countdown"
version = "0.1.0"
edition = "2021"
publish = false

[dependencies]
chrono = "0.4"
fltk = "1.4"
rodio = "0.17"
