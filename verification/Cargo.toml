[package]
name = "brillig_ir"
version = "0.1.0"
edition = "2021"
publish = false

[dependencies]
acvm = "0.16"
clap = { version = "=4.6.7", features = ["derive"] }
termcolor = "=1.4.1"
