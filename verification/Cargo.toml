[package]
name = "libdb"
version = "0.1.0"
edition = "2021"
publish = false

[dependencies]
libc = "=0.2.191"
libdb-sys = { version = "=0.1.1", features = ["v4_8"] }
