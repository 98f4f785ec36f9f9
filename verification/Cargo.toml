[package]
name = "sparkles"
version = "0.1.0"
edition = "2021"
publish = false

[dependencies]
regex = "=1.13.1"
serde_json = "=1.0.154"
simple-server = "=0.4.0"
handlebars = "=6.4.4"
futures = "=0.1.31"
hyper = "0.11"
