[package]
name = "deepclone"
version = "0.3.1"
edition = "2021"
publish = false

[dependencies]
rustc-hash = "2"
syn = "2"
quote = "1"
proc-macro2 = "1"
