[package]
name = "grpc_load_test"
version = "0.1.0"
edition = "2021"
publish = false

[dependencies]
atomic-counter = "*"
clap = { version = "*", features = ["derive"] }
futures = "*"
tokio = { version = "*", features = ["rt-multi-thread", "time", "signal", "macros"] }
tonic = "*"
prost = "*"
http = "*"
