[package]
name = "gfx_chain"
version = "0.1.0"
edition = "2021"
publish = false

[dependencies]
gfx-hal = "=0.4.1"
