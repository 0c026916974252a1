[package]
name = "iedit"
version = "0.1.0"
edition = "2021"
publish = false

[dependencies]
regex-lite = "*"
termion = "*"
crossbeam-channel = "*"
signal-hook = "*"
smol = "*"
copypasta-ext = "*"
