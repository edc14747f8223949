[package]
name = "alrm"
version = "0.1.0"
edition = "2021"
publish = false

[dependencies]
ariadne = "*"
chrono = "*"
clap = { version = "*", features = ["derive"] }
console = "*"
hhmmss = "*"
