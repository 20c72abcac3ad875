[package]
name = "komari"
version = "0.1.0"
edition = "2021"
publish = false

[dependencies]
base64 = "=0.22.1"
tokio = { version = "=1.54.1", features = ["rt", "time", "sync", "macros"] }
lapjv = "=0.3.0"
nalgebra = "=0.35.0"
rand = "0.9"
rand_distr = "0.5"
