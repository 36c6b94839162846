[package]
name = "wui"
version = "0.1.0"
edition = "2021"
publish = false

[dependencies]
rustc-serialize = "0.3"
gcc = "0.3"
