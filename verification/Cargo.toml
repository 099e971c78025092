[package]
name = "scuffle"
version = "0.1.0"
edition = "2021"
publish = false

[dependencies]
libscf-sys = "*"
libc = "*"
chrono = "*"
num-traits = "*"
oxnet = "*"
thiserror = "*"
bitflags = "*"
