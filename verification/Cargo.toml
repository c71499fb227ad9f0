[package]
name = "loop_sound"
version = "0.1.0"
edition = "2021"
publish = false

[dependencies]
rodio = "0.17"
