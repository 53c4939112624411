[package]
name = "handoff_buffer"
version = "0.1.0"
edition = "2021"
publish = false

[dependencies]
wasmer = "=6.1.0"
