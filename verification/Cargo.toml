[package]
name = "rux_http"
version = "0.1.0"
edition = "2021"
publish = false

[dependencies]
httparse = "1"
rux = "*"
log = "0.4"
error-chain = "*"
