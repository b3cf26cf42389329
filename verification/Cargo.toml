[package]
name = "treeclip"
version = "0.1.0"
edition = "2021"
publish = false

[dependencies]
anyhow = "1"
arboard = { version = "3", default-features = false }
clap = { version = "4", features = ["derive"] }
colored = "3"
ignore = "0.4"
rand = "0.9"
thiserror = "2"
unicode-width = "0.2"
walkdir = "2"
