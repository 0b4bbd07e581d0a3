[package]
name = "heliocron"
version = "0.1.0"
edition = "2021"
publish = false

[dependencies]
chrono = "=0.4.45"
tokio-walltime = "=0.1.4"
