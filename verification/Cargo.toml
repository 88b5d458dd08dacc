[package]
name = "lorri"
version = "0.1.0"
edition = "2021"
publish = false

[dependencies]
crossbeam-channel = "0.5"
serde = "1"
serde_json = "1"
tempfile = "3"
vec1 = "1"
