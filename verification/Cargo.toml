[package]
name = "open_harmony"
version = "0.1.0"
edition = "2021"
publish = false

[dependencies]
colored = "2"
duct = "1"
log = "0.4"
os_pipe = "1"
thiserror = "2"
