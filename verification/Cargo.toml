[package]
name = "import_resolver"
version = "0.1.0"
edition = "2021"
publish = false

[dependencies]
comemo = "=0.5.1"
ecow = "=0.2.6"
toml = "=0.8.23"
typst-library = "=0.14.2"
typst-syntax = "=0.14.2"
