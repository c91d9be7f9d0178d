[package]
name = "kwctl"
version = "0.1.0"
edition = "2021"
publish = false

[dependencies]
anyhow = "*"
prettytable-rs = "*"
pulldown-cmark = { version = "*", default-features = false }
pulldown-cmark-mdcat = { version = "*", default-features = false }
serde = { version = "*", features = ["derive"] }
serde_yaml = "*"
syntect = { version = "*", default-features = false }
