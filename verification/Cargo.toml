[package]
name = "pop_logging"
version = "0.1.0"
edition = "2021"
publish = false

[dependencies]
fern = "*"
log = "*"
yansi = "*"
