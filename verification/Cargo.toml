[package]
name = "rustyline"
version = "0.1.0"
edition = "2021"
publish = false

[dependencies]
libc = "0.2"
nix = { version = "0.29", features = ["term"] }
proc-macro2 = "1"
quote = "1"
syn = "1"
