[package]
name = "rquest_tls"
version = "0.1.0"
edition = "2021"
publish = false

[dependencies]
boring = "4"
