[package]
name = "cmd_pipeline"
version = "0.1.0"
edition = "2021"
publish = false

[dependencies]
log = "0.4"
os_pipe = "1"
