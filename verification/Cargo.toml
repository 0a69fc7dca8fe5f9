[package]
name = "tpmiddle"
version = "0.1.0"
edition = "2021"
publish = false

[dependencies]
crossbeam-channel = "*"
spin_sleep = "*"
