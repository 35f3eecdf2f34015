[package]
name = "recorder"
version = "0.1.0"
edition = "2021"
publish = false

[dependencies]
cpal = "0.10"
futures = "0.3"

[dev-dependencies]
hound = "3"
