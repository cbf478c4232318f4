[package]
name = "swagg"
version = "0.1.0"
edition = "2021"
publish = false

[dependencies]
indexmap = "*"
inflections = "*"
openapiv3 = "*"
serde_json = "*"
serde_yaml = "*"
clap = "*"
