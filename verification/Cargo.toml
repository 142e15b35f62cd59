[package]
name = "genji"
version = "0.1.0"
edition = "2021"
publish = false

[dependencies]
image = "0.24"
ab_glyph = "0.2"
hecs = "0.10"
