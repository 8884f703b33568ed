[package]
name = "markterm"
version = "0.1.0"
edition = "2021"
publish = false

[dependencies]
crossterm = "0.27"
pulldown-cmark = { version = "0.9", default-features = false }
syntect = { version = "5", default-features = false, features = ["default-fancy"] }
