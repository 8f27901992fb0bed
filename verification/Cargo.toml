[package]
name = "actix-embed"
version = "0.1.0"
edition = "2021"
publish = false

[dependencies]
actix-web = { version = "4", default-features = false }
futures-core = { version = "0.3", default-features = false, features = ["alloc"] }
hex = "0.4"
mime_guess = "2"
rust-embed = "6"
