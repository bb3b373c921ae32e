[package]
name = "read_process_memory"
version = "0.1.0"
edition = "2021"
publish = false

[dependencies]
libc = "*"
mach = "*"
