[package]
name = "virst_core"
version = "0.1.0"
edition = "2021"
publish = false

[dependencies]
inox2d = "=0.1.0"
rosc = "=0.11.4"
