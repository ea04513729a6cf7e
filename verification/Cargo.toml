[package]
name = "mbeval"
version = "0.1.0"
edition = "2021"
publish = false

[dependencies]
once_cell = "=1.21.4"
shakmaty = "0.29"
