[package]
name = "scap"
version = "0.1.0"
edition = "2021"
publish = false

[dependencies]
screencapturekit = "=1.2.0"
core-graphics-helmer-fork = "=0.24.0"
thiserror = "=2.0.21"
