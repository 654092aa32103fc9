[package]
name = "upmc"
version = "0.1.0"
edition = "2021"
publish = false

[dependencies]
ureq = "3"
serde_json = "1"
zip = { version = "*", default-features = false, features = ["deflate"] }
dirs = "*"
