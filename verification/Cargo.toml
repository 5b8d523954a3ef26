[package]
name = "staff_cli"
version = "0.1.0"
edition = "2021"
publish = false

[dependencies]
clap = { version = "=3.2.25", features = ["derive"] }
staff = "=0.3.0"
