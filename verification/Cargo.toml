[package]
name = "json_in_type"
version = "0.1.0"
edition = "2021"
publish = false

[dependencies]
itoa = { version = "=0.4.8", features = ["i128"] }
ryu-ecmascript = "=0.1.1"
syn = "=1.0.109"
quote = "=1.0.47"
proc-macro2 = "=1.0.107"
