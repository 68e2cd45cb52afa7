[package]
name = "tree_sitter_facade"
version = "0.1.0"
edition = "2021"
publish = false

[dependencies]
tree-sitter = "0.20"
js-sys = "0.3"
web-tree-sitter-sys = "*"
