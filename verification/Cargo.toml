[package]
name = "code_scan_rs"
version = "0.1.0"
edition = "2021"
publish = false

[dependencies]
quote = "1"
structopt = "0.3"
syn = { version = "2", features = ["full", "visit"] }
walkdir = "2"
