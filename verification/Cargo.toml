[package]
name = "manip"
version = "0.1.0"
edition = "2021"
publish = false

[dependencies]
dlopen = "0.1"
dlopen_derive = "0.1"
libc = "0.2"
structopt = "0.3"
