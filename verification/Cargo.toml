[package]
name = "deroff"
version = "0.1.0"
edition = "2021"
publish = false

[dependencies]
regex = "1"
encoding_rs_io = "0.1"
libflate = "1"
lazy_static = "1"
