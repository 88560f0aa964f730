[package]
name = "newtype_id"
version = "0.1.0"
edition = "2021"
publish = false

[dependencies]
nanoid = "*"
serde = { version = "*", default-features = false, features = ["std"] }
