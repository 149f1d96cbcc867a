[package]
name = "lapce_core"
version = "0.1.0"
edition = "2021"
publish = false

[dependencies]
druid = "0.7"
lsp-types = "0.89"
parking_lot = { version = "0.11", features = ["deadlock_detection"] }
tree-sitter = "0.20"
