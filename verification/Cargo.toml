[package]
name = "s_controller"
version = "0.1.0"
edition = "2021"
publish = false

[dependencies]
solana-program = "*"
clap = { version = "*", features = ["derive"] }
