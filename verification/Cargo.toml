[package]
name = "sierra_to_casm"
version = "0.1.0"
edition = "2021"
publish = false

[dependencies]
cairo-lang-debug = "=2.2.0"
cairo-lang-defs = "=2.2.0"
cairo-lang-diagnostics = "=2.2.0"
cairo-lang-filesystem = "=2.2.0"
cairo-lang-parser = "=2.2.0"
cairo-lang-proc-macros = "=2.2.0"
cairo-lang-semantic = "=2.2.0"
cairo-lang-syntax = "=2.2.0"
cairo-lang-syntax-codegen = "=2.2.0"
cairo-lang-utils = "=2.2.0"
lsp-types = "=0.94.1"

[dev-dependencies]
num-bigint = "=0.4.8"
