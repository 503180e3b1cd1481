[package]
name = "aws_hcl"
version = "0.1.0"
edition = "2021"
publish = false

[dependencies]
hcl-rs = "*"
serde = { version = "1", features = ["derive"] }
