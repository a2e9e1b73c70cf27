[package]
name = "react_intl_auto"
version = "0.1.0"
edition = "2021"
publish = false

[dependencies]
murmur3 = "0.5"
base64 = "0.22"
regex = "1"
pathdiff = "0.2"
serde = { version = "1", features = ["derive"] }
serde_json = "1"
clap = { version = "4", features = ["derive"] }
anyhow = "1"
swc_core = { version = "*", features = ["ecma_ast", "ecma_parser", "ecma_visit", "common"] }
