[package]
name = "codelldb_launcher"
version = "0.1.0"
edition = "2021"
publish = false

[dependencies]
clap = "2"
env_logger = "0.6"
failure = "0.1"
globset = "0.4"
walkdir = "2"
