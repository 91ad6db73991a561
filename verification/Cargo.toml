[package]
name = "echo_server"
version = "0.1.0"
edition = "2021"
publish = false

[dependencies]
prost = { version = "0.13", default-features = false, features = ["std"] }
log = "0.4"
