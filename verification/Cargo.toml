[package]
name = "blockhop"
version = "0.1.0"
edition = "2021"
publish = false

[dependencies]
crossbeam-channel = "*"
ezgl = "*"
glutin = "0.24"
nalgebra = "*"
