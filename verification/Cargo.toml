[package]
name = "pyver"
version = "0.1.0"
edition = "2021"
publish = false

[dependencies]
async-std = "1"
structopt = "0.3"
surf = "2"
