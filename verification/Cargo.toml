[package]
name = "lrnprof"
version = "0.1.0"
edition = "2021"
publish = false

[dependencies]
symbolic-common = "*"
symbolic-demangle = { version = "*", default-features = false, features = ["rust", "cpp", "msvc"] }
libc = "0.2"
mach2 = "*"
read-process-memory = "*"
colored = "*"
