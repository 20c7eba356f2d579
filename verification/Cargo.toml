[package]
name = "codi"
version = "0.1.0"
edition = "2021"
publish = false

[dependencies]
lexopt = "*"
libm = "*"
ordered-float = "*"
tabled = "*"
