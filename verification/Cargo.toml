[package]
name = "openapi_to_rust"
version = "0.1.0"
edition = "2021"
publish = false

[dependencies]
heck = "0.3"
syn = "1"
quote = "1"
proc-macro2 = "1"
darling = "0.14"
serde_yaml = "0.8"
openapiv3 = "0.3"
