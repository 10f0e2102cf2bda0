[package]
name = "parser"
version = "0.1.0"
edition = "2021"
publish = false

[dependencies]
tree-sitter = "=0.20.10"
tree-sitter-typescript = "=0.20.5"
tree-sitter-javascript = "=0.20.4"
tree-sitter-python = "=0.20.4"
tree-sitter-kotlin = "=0.2.11"
tree-sitter-c = "=0.20.8"
tree-sitter-cpp = "=0.20.5"
tree-sitter-rust = "=0.20.4"
tree-sitter-go = "=0.20.0"
tree-sitter-php = "=0.20.0"
tree-sitter-java = "=0.20.2"
tree-sitter-c-sharp = "=0.20.0"
tree-sitter-dart = "=0.0.3"
tree-sitter-ruby = "=0.20.1"
serde = { version = "=1.0.229", features = ["derive"] }
serde_json = "=1.0.154"
neon = "=1.1.2"
