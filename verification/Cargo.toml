[package]
name = "eon_core"
version = "0.1.0"
edition = "2021"
publish = false

[dependencies]
heck = "0.5"
clap = { version = "4", features = ["derive"] }
home = "0.5"
codespan-reporting = "0.12"
