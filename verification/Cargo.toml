[package]
name = "eza_options"
version = "0.1.0"
edition = "2021"
publish = false

[dependencies]
anstyle = "1"
clap = { version = "4", features = ["derive"] }
