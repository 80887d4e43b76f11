[package]
name = "adaptivegrain"
version = "0.1.0"
edition = "2021"
publish = false

[dependencies]
vapoursynth = "*"
failure = "*"
rand = "*"
rand_xorshift = "*"
