[package]
name = "gv2ray"
version = "0.1.0"
edition = "2021"
publish = false

[dependencies]
base64 = "0.13"
serde_json = { version = "1", features = ["float_roundtrip"] }
futures = "0.3"
gtk = "0.14"
glib = "0.14"
