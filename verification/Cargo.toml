[package]
name = "column_keyframes"
version = "0.1.0"
edition = "2021"
publish = false

[dependencies]
iced_native = "0.10"
