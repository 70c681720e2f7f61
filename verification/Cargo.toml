[package]
name = "pool_actors"
version = "0.1.0"
edition = "2021"
publish = false

[dependencies]
either = "1"
futures = "0.1"
tokio-threadpool = "0.1"
