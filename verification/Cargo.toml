[package]
name = "async_ssh"
version = "0.1.0"
edition = "2021"
publish = false

[dependencies]
futures = "0.1"
thrussh = "0.19"
thrussh-keys = "0.9"
tokio-core = "0.1"
tokio-io = "0.1"
