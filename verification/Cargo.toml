[package]
name = "poloto"
version = "0.1.0"
edition = "2021"
publish = false

[dependencies]
tagger = "=4.3.5"
svg = "=0.18.0"
