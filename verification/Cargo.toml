[package]
name = "simulator"
version = "0.1.0"
edition = "2021"
publish = false

[dependencies]
tokio = { version = "1", features = ["full"] }
iced-x86 = "1"
devconsole = "*"
