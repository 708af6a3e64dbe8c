[package]
name = "ezterm_gui"
version = "0.1.0"
edition = "2021"
publish = false

[dependencies]
dirs-next = "2.0.0"
anyhow = "1"
