[package]
name = "uri_routes"
version = "0.1.0"
edition = "2021"
publish = false

[dependencies]
anyhow = "1"
http = "1"
ordered-float = "4"
thiserror = "1"
