[package]
name = "constant_folding"
version = "0.1.0"
edition = "2021"
publish = false

[dependencies]
aleph-syntax-tree = "*"
