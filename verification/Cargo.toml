[package]
name = "dag_nodes"
version = "0.1.0"
edition = "2021"
publish = false

[dependencies]
ahash = "0.8"
approx = "0.5"
