[package]
name = "cargo-kcov"
version = "0.5.2"
edition = "2021"
publish = false

[dependencies]
clap = "2"
open = "*"
regex = "1"
rustc-serialize = "0.3"
shlex = "*"
term = "*"

[dev-dependencies]
tempdir = "0.3"
