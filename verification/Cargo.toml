[package]
name = "zula-core"
version = "4.0.0"
edition = "2021"
publish = false

[dependencies]
libloading = "=0.8.9"
termion = "=1.5.6"
