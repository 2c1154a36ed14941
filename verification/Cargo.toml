[package]
name = "projwatch"
version = "0.1.0"
edition = "2021"
publish = false

[dependencies]
tokio = { version = "*", features = ["full"] }
futures = "*"
once_cell = "*"
swayipc-async = "*"
three-d = "*"
three-d-asset = "*"
