[package]
name = "rty"
version = "0.1.0"
edition = "2021"
publish = false

[dependencies]
argh = "*"
tokio = { version = "*", features = ["rt-multi-thread", "macros", "process", "time"] }
