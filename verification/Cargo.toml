[package]
name = "murder"
version = "0.1.0"
edition = "2021"
publish = false

[dependencies]
protobuf = "2"
rand = "0.4"
uuid = { version = "0.8", features = ["v4"] }
