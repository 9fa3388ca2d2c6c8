[package]
name = "magoo"
version = "0.1.0"
edition = "2021"
publish = false

[dependencies]
semver = "*"
pathdiff = "*"
clap = { version = "*", features = ["derive"] }
fs4 = "*"
which = "*"
