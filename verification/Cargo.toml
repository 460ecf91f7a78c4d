[package]
name = "thanix"
version = "0.1.0"
edition = "2021"
publish = false

[dependencies]
check_keyword = "*"
convert_case = "*"
clap = { version = "*", features = ["derive"] }
serde_yaml = "*"
openapiv3 = "*"
