[package]
name = "macho_symbols"
version = "0.1.0"
edition = "2021"
publish = false

[dependencies]
object = { version = "0.22", default-features = false, features = ["read_core", "macho", "archive", "unaligned"] }
