[package]
name = "fastembed"
version = "0.1.0"
edition = "2021"
publish = false

[dependencies]
hf-hub = "*"
ort = "=2.0.0-rc.13"
tokenizers = "*"
