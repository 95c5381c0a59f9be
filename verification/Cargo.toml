[package]
name = "nvim_dispatch"
version = "0.1.0"
edition = "2021"
publish = false

[dependencies]
rmpv = "*"
nvim-rs = { version = "*", features = ["use_tokio"] }
tokio = { version = "1", features = ["full"] }
async-trait = "*"
log = "0.4"
