[package]
name = "codegen_clr"
version = "0.1.0"
edition = "2021"
publish = false
