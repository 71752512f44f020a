[package]
name = "lttng_ust_generate"
version = "0.1.0"
edition = "2021"
publish = false

[dependencies]
bindgen = "*"
cc = "1"
log = "0.4"
