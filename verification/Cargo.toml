[package]
name = "png_squeeze"
version = "0.1.0"
edition = "2021"
publish = false

[dependencies]
clap = { version = "4", features = ["derive"] }
futures = "0.3"
num_cpus = "1"
tokio = { version = "1", features = ["fs", "macros", "process", "rt-multi-thread"] }
