[package]
name = "fake_executor"
version = "0.1.0"
edition = "2021"
publish = false

[dependencies]
bcs = "0.1"
move-core-types = "0.0.3"
num_cpus = "1"
serde = { version = "1", features = ["derive"] }
