[package]
name = "forklifts_vs_managers"
version = "0.1.0"
edition = "2021"
publish = false

[dependencies]
flipperzero = "*"
flipperzero-sys = "*"
flipperzero-rt = "*"
flipperzero-alloc = "*"
