[package]
name = "washed_up"
version = "0.1.0"
edition = "2021"
publish = false

[dependencies]
rustc-serialize = "=0.3.25"
threadpool = "1"
uuid = { version = "=1.27.0", features = ["v4"] }
