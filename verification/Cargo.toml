[package]
name = "http_profiler"
version = "0.1.0"
edition = "2021"

[dependencies]
url = "2"
clap = "2"
