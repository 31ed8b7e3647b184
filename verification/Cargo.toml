[package]
name = "cargo_decompile"
version = "0.1.0"
edition = "2021"
publish = false

[dependencies]
clap = { version = "4", features = ["derive"] }
r2pipe = "*"
syntect = { version = "5", default-features = false, features = ["default-fancy"] }
