[package]
name = "gensokyo-vulkan"
version = "0.1.0"
edition = "2021"
publish = false

[dependencies]
ash = "*"
num = "*"
