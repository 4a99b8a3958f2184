[package]
name = "latency_test"
version = "0.1.0"
edition = "2021"
publish = false

[dependencies]
sdl2 = "*"
tracing = "0.1"
tracing-subscriber = "0.3"
tracing-tracy = "*"
