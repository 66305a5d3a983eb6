[package]
name = "signalk"
version = "0.1.0"
edition = "2021"
publish = false

[dependencies]
actix-rt = "*"
actix-web = "*"
awc = "*"
bytes = "*"
futures-util = "*"
serde_json = "*"
