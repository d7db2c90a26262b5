[package]
name = "fluent_blueprint"
version = "0.1.0"
edition = "2021"
publish = false

[dependencies]
derive_builder = "*"
typed-builder = "*"
