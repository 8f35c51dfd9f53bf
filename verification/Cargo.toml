[package]
name = "evaljs"
version = "0.1.0"
edition = "2021"
publish = false

[dependencies]
num_cpus = "1"
redis-module = "2"
rquickjs = "*"
