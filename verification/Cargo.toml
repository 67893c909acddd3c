[package]
name = "pheeple"
version = "0.1.0"
edition = "2021"
publish = false

[dependencies]
uuid = { version = "1", features = ["v4"] }
rand = "0.9"
geo = "*"
geojson = "*"
args = "*"
getopts = "*"
bevy = { version = "0.17", default-features = false }
