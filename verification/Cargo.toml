[package]
name = "jotdown"
version = "0.1.0"
edition = "2021"
publish = false

[dependencies]
dirs = "*"
tokio = { version = "*", default-features = false, features = ["fs"] }
