[package]
name = "easyhttpmock"
version = "0.1.0"
edition = "2021"
publish = false

[dependencies]
bytes = "1"
caramelo = "*"
http = "1"
jsonpath-rust = "*"
regex = "1"
serde = { version = "1", features = ["derive"] }
serde_json = "1"
serde-xml-rs = "*"
simdxml = "*"
sonic-rs = "*"
