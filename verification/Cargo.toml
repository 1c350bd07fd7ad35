[package]
name = "acmed"
version = "0.1.0"
edition = "2021"
publish = false

[dependencies]
handlebars = "*"
acme-lib = "*"
nix = { version = "*", features = ["fs", "user"] }
