[package]
name = "elmfmt"
version = "0.1.0"
edition = "2021"
publish = false

[dependencies]
anyhow = "*"
clap = { version = "*", features = ["derive"] }
serde_yaml = "*"
topiary-core = "*"
tree-sitter-elm = "*"
walkdir = "*"
