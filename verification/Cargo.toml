[package]
name = "digit_classifier"
version = "0.1.0"
edition = "2021"
publish = false

[dependencies]
burn = { version = "0.16", default-features = false, features = ["std", "ndarray", "autodiff"] }
clap = { version = "4", features = ["cargo"] }
