[package]
name = "profiler"
version = "0.1.0"
edition = "2021"
publish = false

[dependencies]
anyhow = "1"
clap = { version = "4", features = ["derive"] }
one_collect = "*"
perf-event = "0.4"
tracepoint_decode = "*"
tracepoint_perf = "*"
