[package]
name = "anchor_introspection"
version = "0.1.0"
edition = "2021"
publish = false

[dependencies]
sha2 = "*"
convert_case = "*"

[dev-dependencies]
bs58 = "*"
borsh = "*"
