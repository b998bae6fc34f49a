[package]
name = "cheatnet"
version = "0.1.0"
edition = "2021"
publish = false

[dependencies]
cairo-lang-casm = "=2.21.0"
cairo-lang-runner = "=2.21.0"
cairo-vm = "=3.2.0"
