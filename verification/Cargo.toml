[package]
name = "t5_pipeline"
version = "0.1.0"
edition = "2021"
publish = false

[dependencies]
anyhow = "*"
rust-bert = "*"
tch = "0.17"
