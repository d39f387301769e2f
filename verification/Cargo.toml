[package]
name = "sparkle_impostor"
version = "0.1.0"
edition = "2021"
publish = false

[dependencies]
twilight-validate = "*"
twilight-model = "*"
twilight-http = "*"
