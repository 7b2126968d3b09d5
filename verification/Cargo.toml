[package]
name = "fp_bindgen"
version = "0.1.0"
edition = "2021"
publish = false

[dependencies]
Inflector = "*"
rustfmt-wrapper = "*"
