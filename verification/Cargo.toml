[package]
name = "vma"
version = "0.1.0"
edition = "2021"
publish = false

[dependencies]
bindgen = "=0.69.5"
static_assertions = "=1.1.0"
