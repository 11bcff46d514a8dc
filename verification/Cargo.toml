[package]
name = "slimmer_box"
version = "0.1.0"
edition = "2021"
publish = false

[dependencies]
ptr_meta = "*"
