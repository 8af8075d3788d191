[package]
name = "seccomp_gate"
version = "0.1.0"
edition = "2021"
publish = false

[dependencies]
libc = "*"
libseccomp-sys = "*"
