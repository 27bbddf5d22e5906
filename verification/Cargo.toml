[package]
name = "formulas"
version = "0.1.0"
edition = "2021"
publish = false

[dependencies]
clap = { version = "4", features = ["derive"] }
strum = "0.26"
strum_macros = "0.26"
