[package]
name = "nickel"
version = "0.1.0"
edition = "2021"
publish = false

[dependencies]
hyper = "=0.11.27"
futures = "=0.1.31"
tokio-core = "=0.1.18"
typemap = "=0.3.3"
plugin = "=0.2.6"
mustache = "=0.9.0"
