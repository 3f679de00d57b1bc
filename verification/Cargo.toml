[package]
name = "rdup"
version = "0.1.0"
edition = "2021"

[dependencies]
twox-hash = "*"
walkdir = "*"
gumdrop = "*"
