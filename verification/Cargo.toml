[package]
name = "glommactor"
version = "0.1.0"
edition = "2021"
publish = false

[dependencies]
anyhow = "1"
async-broadcast = "0.7"
async-priority-channel = "0.2"
async-trait = "0.1"
flume = "0.11"
futures = "0.3"
glommio = "0.9"
thiserror = "1"
tracing = "0.1"
