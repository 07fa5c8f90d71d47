[package]
name = "miso"
version = "0.1.0"
edition = "2021"
publish = false

[dependencies]
rodio = "0.11"
iced = "0.1"
