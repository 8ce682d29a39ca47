[package]
name = "shell_parser_surfaces_rs"
version = "0.1.0"
edition = "2021"
publish = false

[dependencies]
encoding_rs = "0.8"
