[package]
name = "rust_caster"
version = "0.1.0"
edition = "2021"
publish = false

[dependencies]
ansi_term = "*"
docopt = "*"
env_logger = "*"
log = "*"
rust_cast = "*"
serde = "*"
serde_derive = "*"
