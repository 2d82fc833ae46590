[package]
name = "tide_lambda_listener"
version = "0.1.0"
edition = "2021"
publish = false

[dependencies]
tide = "0.16"
surf = "2"
http-client = "6"
http-types = "2"
async-std = "1"
