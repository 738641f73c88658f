[package]
name = "otel_sdk"
version = "0.1.0"
edition = "2021"
publish = false

[dependencies]
eventheader_dynamic = "*"
