[package]
name = "socketcan_hw"
version = "0.1.0"
edition = "2021"
publish = false

[dependencies]
socketcan = "1.7"
socketcan-isotp = "1"
