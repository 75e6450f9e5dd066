[package]
name = "regressors"
version = "0.1.0"
edition = "2021"
publish = false

[dependencies]
clap = { version = "=4.6.7", features = ["derive"] }
csv = "=1.4.0"
plotters = "=0.3.7"
progress-observer = "=2.2.0"
serde = { version = "=1.0.229", features = ["derive"] }
