[package]
name = "bolt_driver"
version = "0.1.0"
edition = "2021"
publish = false

[dependencies]
tokio = { version = "1", features = ["net", "rt", "macros"] }
tokio-tongsuo = "*"
tongsuo = "*"
url = "2"
