[package]
name = "openpid_docgen"
version = "0.1.0"
edition = "2021"
publish = false

[dependencies]
derive_more = { version = "*", features = ["display"] }
indoc = "*"
mdbook = { version = "0.4", default-features = false }
toml = "*"
