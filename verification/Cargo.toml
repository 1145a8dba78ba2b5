[package]
name = "slint_snapshot"
version = "0.1.0"
edition = "2021"
publish = false

[dependencies]
png = "0.18"
tempfile = "3"
