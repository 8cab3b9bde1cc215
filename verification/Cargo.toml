[package]
name = "escrow"
version = "0.1.0"
edition = "2021"
publish = false

[dependencies]
anchor-lang = "=0.27.0"
anchor-spl = { version = "=0.27.0", default-features = false, features = ["mint", "token", "associated_token"] }
